use tessark::default_format;
use tessark::reference::{last_path_segment, parse_repo_tag, valid_ref};

#[test]
fn default_format_is_docker_archive() {
    assert_eq!(default_format(), "docker-archive");
}

#[test]
fn valid_ref_accepts_typical_references() {
    assert!(valid_ref("library/alpine:latest"));
    assert!(valid_ref("registry.example.com/ns/app:1.2.3"));
    assert!(valid_ref("ghcr.io/org/chart@sha256:abcd"));
    assert!(valid_ref("docker://registry.example.com/app_1-x"));
}

#[test]
fn valid_ref_rejects_empty() {
    assert!(!valid_ref(""));
}

#[test]
fn valid_ref_rejects_foreign_characters() {
    assert!(!valid_ref("library/alpine latest"));
    assert!(!valid_ref("app;rm"));
    assert!(!valid_ref("app\n"));
    assert!(!valid_ref("caf\u{e9}/app"));
    assert!(!valid_ref("app$"));
}

#[test]
fn decompose_path_and_tag() {
    let (repo, tag) = parse_repo_tag("registry.example.com/ns/app:1.2.3");
    assert_eq!(repo, "app");
    assert_eq!(tag, "1.2.3");
}

#[test]
fn decompose_digest_fixes_latest() {
    let (repo, tag) = parse_repo_tag("registry.example.com/ns/app@sha256:abcd");
    assert_eq!(repo, "app");
    assert_eq!(tag, "latest");
}

#[test]
fn decompose_bare_name() {
    let (repo, tag) = parse_repo_tag("app");
    assert_eq!(repo, "app");
    assert_eq!(tag, "latest");
}

#[test]
fn decompose_empty_tag_falls_back() {
    let (repo, tag) = parse_repo_tag("app:");
    assert_eq!(repo, "app");
    assert_eq!(tag, "latest");
}

#[test]
fn decompose_strips_transport_prefix() {
    let (repo, tag) = parse_repo_tag("docker://registry.example.com/ns/app:2.0");
    assert_eq!(repo, "app");
    assert_eq!(tag, "2.0");
}

#[test]
fn decompose_drops_registry_host_only_once() {
    let (repo, tag) = parse_repo_tag("registry.example.com/a/b/c:9");
    assert_eq!(repo, "c");
    assert_eq!(tag, "9");
}

#[test]
fn last_path_segment_takes_tail() {
    assert_eq!(last_path_segment("a/b/c"), "c");
    assert_eq!(last_path_segment("plain"), "plain");
    assert_eq!(last_path_segment("trailing/"), "");
}
