use tessark::classify::{classify_chart, classify_image, FailureKind};

#[test]
fn image_manifest_unknown_is_not_found() {
    assert_eq!(classify_image("Error: manifest unknown"), FailureKind::NotFound);
}

#[test]
fn image_authentication_required_is_access_denied() {
    assert_eq!(
        classify_image("unauthorized: authentication required"),
        FailureKind::AccessDenied
    );
}

#[test]
fn image_not_found_wins_over_access_denied() {
    assert_eq!(
        classify_image("manifest unknown: access denied"),
        FailureKind::NotFound
    );
}

#[test]
fn image_matching_is_case_insensitive() {
    assert_eq!(classify_image("MANIFEST UNKNOWN"), FailureKind::NotFound);
    assert_eq!(classify_image("Access DENIED"), FailureKind::AccessDenied);
}

#[test]
fn image_name_unknown_and_not_found_phrases() {
    assert_eq!(classify_image("name unknown"), FailureKind::NotFound);
    assert_eq!(classify_image("blob not found"), FailureKind::NotFound);
}

#[test]
fn image_unmatched_text_is_generic() {
    assert_eq!(classify_image("connection reset by peer"), FailureKind::Generic);
    assert_eq!(classify_image(""), FailureKind::Generic);
}

#[test]
fn chart_phrases() {
    assert_eq!(classify_chart("Error: chart unavailable"), FailureKind::NotFound);
    assert_eq!(classify_chart("release Not Found"), FailureKind::NotFound);
    assert_eq!(classify_chart("access denied"), FailureKind::AccessDenied);
    assert_eq!(classify_chart("401 Unauthorized"), FailureKind::AccessDenied);
    assert_eq!(classify_chart("authentication required"), FailureKind::AccessDenied);
    assert_eq!(classify_chart("dial tcp refused"), FailureKind::Generic);
}

#[test]
fn chart_not_found_wins_over_access_denied() {
    assert_eq!(classify_chart("chart pull denied"), FailureKind::NotFound);
}
