use tessark::artifact::{
    chart_cleanup_policy, chart_temp_dir, image_cleanup_policy, image_temp_path, is_tgz,
    select_chart_archive,
};
use tessark::invoke::{fetch_timeout_secs, probe_timeout_secs, pull_timeout_secs};
use tessark::ready::{helm_probe_args, readiness_response, skopeo_probe_args};

#[test]
fn temp_paths_embed_root_and_token() {
    assert_eq!(image_temp_path("/tmp", "tok"), "/tmp/images-tok.tar");
    assert_eq!(chart_temp_dir("/var/tmp", "tok"), "/var/tmp/charts-tok");
}

#[test]
fn tgz_detection_follows_extension_rules() {
    assert!(is_tgz("mychart-1.0.0.tgz"));
    assert!(is_tgz("a.b.tgz"));
    assert!(!is_tgz("mychart.tar.gz"));
    assert!(!is_tgz(".tgz"));
    assert!(!is_tgz("mychart.TGZ"));
    assert!(!is_tgz("tgz"));
}

#[test]
fn first_archive_entry_is_selected() {
    let entries = vec![
        "README.md".to_string(),
        "one.tgz".to_string(),
        "two.tgz".to_string(),
    ];
    assert_eq!(select_chart_archive(&entries), Some(1));
    assert_eq!(select_chart_archive(&Vec::new()), None);
}

#[test]
fn cleanup_policies_match_the_schedules() {
    let img = image_cleanup_policy();
    assert_eq!(img.delay_ms, 500);
    assert_eq!(img.attempts, 3);
    assert_eq!(img.interval_ms, 500);
    let ch = chart_cleanup_policy();
    assert_eq!(ch.delay_ms, 30000);
    assert_eq!(ch.attempts, 3);
    assert_eq!(ch.interval_ms, 500);
}

#[test]
fn timeout_bounds() {
    assert_eq!(pull_timeout_secs(), 300);
    assert_eq!(probe_timeout_secs(), 5);
    assert_eq!(fetch_timeout_secs(), 30);
}

#[test]
fn probe_arguments() {
    assert_eq!(skopeo_probe_args(), vec!["--version".to_string()]);
    assert_eq!(helm_probe_args(), vec!["version".to_string()]);
}

#[test]
fn readiness_requires_every_tool() {
    let (code, body) = readiness_response(true, true);
    assert_eq!(code, 200);
    assert_eq!(body, "Ready");
    for (s, h) in [(false, true), (true, false), (false, false)] {
        let (code, body) = readiness_response(s, h);
        assert_eq!(code, 503);
        assert_eq!(body, "Required tools not available");
    }
}
