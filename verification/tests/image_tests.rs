use tessark::image::{
    image_metadata_error, image_open_error, image_outcome_response, image_success_head,
    normalize_format, prepare_image_pull,
};
use tessark::invoke::{SpawnFailure, ToolOutcome};

#[test]
fn normalize_keeps_known_formats() {
    assert_eq!(normalize_format("docker-archive"), "docker-archive");
    assert_eq!(normalize_format("oci-archive"), "oci-archive");
}

#[test]
fn normalize_defaults_unknown_formats() {
    assert_eq!(normalize_format("zip"), "docker-archive");
    assert_eq!(normalize_format(""), "docker-archive");
}

#[test]
fn image_prepare_rejects_blank_reference() {
    let r = prepare_image_pull("   ", "docker-archive", &None, &None, "/tmp");
    let e = r.err().unwrap();
    assert_eq!(e.status, 400);
    assert_eq!(e.message, "Missing image reference");
}

#[test]
fn image_prepare_rejects_invalid_reference() {
    let r = prepare_image_pull("bad ref!", "docker-archive", &None, &None, "/tmp");
    let e = r.err().unwrap();
    assert_eq!(e.status, 400);
    assert_eq!(e.message, "Invalid image reference format");
}

#[test]
fn prepare_lays_out_copy_invocation() {
    let plan = prepare_image_pull(
        "registry.example.com/ns/app:1.2.3",
        "oci-archive",
        &None,
        &None,
        "/tmp",
    )
    .ok()
    .unwrap();
    assert_eq!(plan.repo, "app");
    assert_eq!(plan.tag, "1.2.3");
    assert_eq!(plan.fmt, "oci-archive");
    assert_eq!(plan.token.len(), 36);
    assert_eq!(plan.tmp_path, format!("/tmp/images-{}.tar", plan.token));
    let dest = format!("oci-archive:{}:app:1.2.3", plan.tmp_path);
    assert_eq!(
        plan.args,
        vec![
            "copy".to_string(),
            "docker://registry.example.com/ns/app:1.2.3".to_string(),
            dest,
        ]
    );
    assert_eq!(plan.filename, "app-1.2.3-oci-archive.tar");
}

#[test]
fn prepare_injects_trimmed_credentials() {
    let plan = prepare_image_pull(
        "library/alpine:latest",
        "docker-archive",
        &Some(" user ".to_string()),
        &Some(" pw ".to_string()),
        "/tmp",
    )
    .ok()
    .unwrap();
    assert_eq!(plan.args[0], "copy");
    assert_eq!(plan.args[1], "--src-creds");
    assert_eq!(plan.args[2], "user:pw");
    assert_eq!(plan.args[3], "docker://library/alpine:latest");
}

#[test]
fn prepare_ignores_partial_or_blank_credentials() {
    let p1 = prepare_image_pull(
        "library/alpine:latest",
        "docker-archive",
        &Some("user".to_string()),
        &None,
        "/tmp",
    )
    .ok()
    .unwrap();
    assert_eq!(p1.args.len(), 3);
    let p2 = prepare_image_pull(
        "library/alpine:latest",
        "docker-archive",
        &Some("user".to_string()),
        &Some("   ".to_string()),
        "/tmp",
    )
    .ok()
    .unwrap();
    assert_eq!(p2.args.len(), 3);
}

#[test]
fn concurrent_preparations_never_share_a_path() {
    let a = prepare_image_pull("library/alpine:latest", "docker-archive", &None, &None, "/tmp")
        .ok()
        .unwrap();
    let b = prepare_image_pull("library/alpine:latest", "docker-archive", &None, &None, "/tmp")
        .ok()
        .unwrap();
    assert_ne!(a.token, b.token);
    assert_ne!(a.tmp_path, b.tmp_path);
}

#[test]
fn image_timeout_yields_gateway_timeout() {
    let r = image_outcome_response("library/alpine:latest", &ToolOutcome::TimedOut);
    let e = r.err().unwrap();
    assert_eq!(e.status, 504);
    assert_eq!(e.message, "Image pull timeout (exceeded 5 minutes)");
}

#[test]
fn image_missing_executable_yields_not_implemented() {
    let out = ToolOutcome::SpawnFailed(SpawnFailure::ExecutableNotFound);
    let e = image_outcome_response("r", &out).err().unwrap();
    assert_eq!(e.status, 501);
    assert_eq!(e.message, "skopeo command not found");
}

#[test]
fn image_other_spawn_failure_yields_bad_gateway() {
    let out = ToolOutcome::SpawnFailed(SpawnFailure::Other("permission denied".to_string()));
    let e = image_outcome_response("r", &out).err().unwrap();
    assert_eq!(e.status, 502);
    assert_eq!(e.message, "Failed to spawn skopeo: permission denied");
}

#[test]
fn image_failed_exit_is_classified() {
    let not_found = ToolOutcome::Exited {
        success: false,
        stderr: "Error: manifest unknown".to_string(),
    };
    let e = image_outcome_response("library/alpine:latest", &not_found).err().unwrap();
    assert_eq!(e.status, 404);
    assert_eq!(e.message, "Image not found: library/alpine:latest");

    let denied = ToolOutcome::Exited {
        success: false,
        stderr: "unauthorized: authentication required".to_string(),
    };
    let e = image_outcome_response("r", &denied).err().unwrap();
    assert_eq!(e.status, 403);
    assert_eq!(e.message, "Access denied to registry");

    let other = ToolOutcome::Exited { success: false, stderr: "io error".to_string() };
    let e = image_outcome_response("r", &other).err().unwrap();
    assert_eq!(e.status, 502);
    assert_eq!(e.message, "Failed to copy image");
}

#[test]
fn image_successful_exit_passes() {
    let out = ToolOutcome::Exited { success: true, stderr: String::new() };
    assert!(image_outcome_response("r", &out).is_ok());
}

#[test]
fn image_internal_errors_are_server_errors() {
    let m = image_metadata_error();
    assert_eq!(m.status, 500);
    assert_eq!(m.message, "Failed to prepare download");
    let o = image_open_error();
    assert_eq!(o.status, 500);
    assert_eq!(o.message, "Failed to open archive");
}

#[test]
fn image_success_head_names_the_download() {
    let plan = prepare_image_pull("library/alpine:latest", "docker-archive", &None, &None, "/tmp")
        .ok()
        .unwrap();
    let head = image_success_head(&plan, 4096);
    assert_eq!(head.status, 200);
    assert_eq!(head.content_type, "application/x-tar");
    assert_eq!(head.content_length, 4096);
    assert_eq!(
        head.content_disposition,
        "attachment; filename=\"alpine-latest-docker-archive.tar\""
    );
    assert_eq!(head.cache_control, "no-store");
}
