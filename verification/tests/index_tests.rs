use tessark::index::{index_fetch_response, plan_index_fetch, FetchOutcome};

#[test]
fn non_http_scheme_is_rejected() {
    let e = plan_index_fetch("ftp://example.com/x").err().unwrap();
    assert_eq!(e.status, 400);
    assert_eq!(e.message, "Invalid URL scheme");
}

#[test]
fn unparsable_text_is_rejected() {
    let e = plan_index_fetch("not a url").err().unwrap();
    assert_eq!(e.status, 400);
    assert_eq!(e.message, "Invalid URL format");
}

#[test]
fn bare_host_gains_index_path() {
    let u = plan_index_fetch("https://charts.example.com").ok().unwrap();
    assert_eq!(u, "https://charts.example.com/index.yaml");
}

#[test]
fn trailing_slashes_are_trimmed_before_rewrite() {
    let u = plan_index_fetch("https://charts.example.com/repo///").ok().unwrap();
    assert_eq!(u, "https://charts.example.com/repo/index.yaml");
}

#[test]
fn existing_index_paths_pass_through() {
    let a = plan_index_fetch("http://example.com/r/index.yaml").ok().unwrap();
    assert_eq!(a, "http://example.com/r/index.yaml");
    let b = plan_index_fetch("http://example.com/r/index.yml").ok().unwrap();
    assert_eq!(b, "http://example.com/r/index.yml");
}

#[test]
fn index_timeout_yields_gateway_timeout() {
    let r = index_fetch_response(FetchOutcome::TimedOut);
    assert_eq!(r.status, 504);
    assert!(r.content_type.is_none());
    assert_eq!(r.body, "Upstream request timeout");
}

#[test]
fn transport_failure_yields_bad_gateway() {
    let r = index_fetch_response(FetchOutcome::TransportFailed);
    assert_eq!(r.status, 502);
    assert_eq!(r.body, "Upstream fetch failed");
}

#[test]
fn upstream_error_status_is_reported() {
    let r = index_fetch_response(FetchOutcome::Responded {
        status: 404,
        status_text: "404 Not Found".to_string(),
        body: Some("ignored".to_string()),
    });
    assert_eq!(r.status, 502);
    assert!(r.content_type.is_none());
    assert_eq!(r.body, "Upstream error: 404 Not Found");
}

#[test]
fn readable_success_body_is_relayed() {
    let r = index_fetch_response(FetchOutcome::Responded {
        status: 200,
        status_text: "200 OK".to_string(),
        body: Some("entries: {}".to_string()),
    });
    assert_eq!(r.status, 200);
    assert_eq!(r.content_type.as_deref(), Some("text/plain; charset=utf-8"));
    assert_eq!(r.body, "entries: {}");
}

#[test]
fn unreadable_success_body_is_bad_gateway() {
    let r = index_fetch_response(FetchOutcome::Responded {
        status: 204,
        status_text: "204 No Content".to_string(),
        body: None,
    });
    assert_eq!(r.status, 502);
    assert_eq!(r.body, "Failed to read upstream response");
}
