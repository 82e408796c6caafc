//! The image pull orchestration: validating the request, building the copy
//! tool's command line and destination descriptor, translating the tool's
//! outcome into a reply, and shaping the success headers.

use vstd::prelude::*;
use vstd::string::StrSliceExecFns;
use vstd::string::StringExecFns;

use crate::artifact::{fresh_token, image_temp_path, spec_image_temp_path, token_shaped};
use crate::classify::{classify_image, lower_of, spec_classify_image, FailureKind};
use crate::invoke::{SpawnFailure, ToolOutcome};
use crate::reference::{parse_repo_tag, spec_repo_tag, valid_ref, valid_ref_seq};
use crate::response::{ErrorResponse, SuccessHead};
use crate::text::{str_eq, trim_spec, trim_str};

verus! {

/// Both credential halves are supplied and non-blank after trimming.
pub open spec fn creds_present(u: Option<Seq<char>>, p: Option<Seq<char>>) -> bool {
    match (u, p) {
        (Some(uu), Some(pp)) => trim_spec(uu).len() > 0 && trim_spec(pp).len() > 0,
        _ => false,
    }
}

/// The combined `user:password` argument handed to the copy tool.
pub open spec fn spec_creds_arg(u: Seq<char>, p: Seq<char>) -> Seq<char> {
    trim_spec(u) + ":"@ + trim_spec(p)
}

/// A recognized format passes through; anything else falls back to the
/// default archive format.
pub open spec fn spec_normalize_format(f: Seq<char>) -> Seq<char> {
    if f == "docker-archive"@ || f == "oci-archive"@ {
        f
    } else {
        "docker-archive"@
    }
}

/// The copy tool's destination descriptor: `<format>:<path>:<repo>:<tag>`.
pub open spec fn spec_dest_descriptor(
    fmt: Seq<char>,
    path: Seq<char>,
    repo: Seq<char>,
    tag: Seq<char>,
) -> Seq<char> {
    fmt + ":"@ + path + ":"@ + repo + ":"@ + tag
}

/// The full argument list of the copy invocation.
pub open spec fn spec_image_args(
    reference: Seq<char>,
    u: Option<Seq<char>>,
    p: Option<Seq<char>>,
    dest: Seq<char>,
) -> Seq<Seq<char>> {
    let tail = seq!["docker://"@ + reference, dest];
    if creds_present(u, p) {
        seq!["copy"@, "--src-creds"@, spec_creds_arg(u->Some_0, p->Some_0)] + tail
    } else {
        seq!["copy"@] + tail
    }
}

/// The download file name offered for a pulled image.
pub open spec fn spec_image_filename(repo: Seq<char>, tag: Seq<char>, fmt: Seq<char>) -> Seq<char> {
    repo + "-"@ + tag + "-"@ + fmt + ".tar"@
}

/// Everything a validated image pull needs before the tool runs.
pub struct ImagePullPlan {
    /// The fresh per-request token the destination is named with.
    pub token: String,
    /// The destination archive file.
    pub tmp_path: String,
    /// The repository short name the reference decomposes into.
    pub repo: String,
    /// The tag the reference decomposes into.
    pub tag: String,
    /// The normalized archive format.
    pub fmt: String,
    /// The copy tool's argument list.
    pub args: Vec<String>,
    /// The download file name offered to the caller.
    pub filename: String,
}

/// Normalizes a requested format to one of the recognized archive formats.
pub fn normalize_format(f: &str) -> (r: String)
    ensures
        r@ == spec_normalize_format(f@),
{
    if str_eq(f, "docker-archive") || str_eq(f, "oci-archive") {
        f.to_owned()
    } else {
        String::from_str("docker-archive")
    }
}

/// Validates an image pull request and lays out the tool invocation: the
/// reference must be non-blank and well-formed, the format is normalized, the
/// destination is a fresh uniquely-named file, and credentials join the
/// arguments only when both halves are non-blank.
pub fn prepare_image_pull(
    reference: &str,
    format: &str,
    username: &Option<String>,
    password: &Option<String>,
    tmp_root: &str,
) -> (r: Result<ImagePullPlan, ErrorResponse>)
    ensures
        trim_spec(reference@).len() == 0 ==> (r matches Err(e) && e.status == 400 && e.message@
            == "Missing image reference"@),
        trim_spec(reference@).len() > 0 && !valid_ref_seq(reference@) ==> (r matches Err(e)
            && e.status == 400 && e.message@ == "Invalid image reference format"@),
        trim_spec(reference@).len() > 0 && valid_ref_seq(reference@) ==> (r matches Ok(plan) && ({
            &&& token_shaped(plan.token@)
            &&& plan.fmt@ == spec_normalize_format(format@)
            &&& plan.repo@ == spec_repo_tag(reference@).0
            &&& plan.tag@ == spec_repo_tag(reference@).1
            &&& plan.tmp_path@ == spec_image_temp_path(tmp_root@, plan.token@)
            &&& plan.args.deep_view() == spec_image_args(
                reference@,
                username.deep_view(),
                password.deep_view(),
                spec_dest_descriptor(plan.fmt@, plan.tmp_path@, plan.repo@, plan.tag@),
            )
            &&& plan.filename@ == spec_image_filename(plan.repo@, plan.tag@, plan.fmt@)
        })),
{
    let t = trim_str(reference);
    if t.as_str().unicode_len() == 0 {
        return Err(
            ErrorResponse { status: 400, message: String::from_str("Missing image reference") },
        );
    }
    if !valid_ref(reference) {
        return Err(
            ErrorResponse {
                status: 400,
                message: String::from_str("Invalid image reference format"),
            },
        );
    }
    let fmt = normalize_format(format);
    let token = fresh_token();
    let tmp_path = image_temp_path(tmp_root, token.as_str());
    let (repo, tag) = parse_repo_tag(reference);

    let mut dest = fmt.clone();
    dest.append(":");
    dest.append(tmp_path.as_str());
    dest.append(":");
    dest.append(repo.as_str());
    dest.append(":");
    dest.append(tag.as_str());
    proof {
        assert(dest@ =~= spec_dest_descriptor(fmt@, tmp_path@, repo@, tag@));
    }

    let mut args: Vec<String> = Vec::new();
    args.push(String::from_str("copy"));
    match (username, password) {
        (Some(u), Some(p)) => {
            let ut = trim_str(u.as_str());
            let pt = trim_str(p.as_str());
            if ut.as_str().unicode_len() > 0 && pt.as_str().unicode_len() > 0 {
                args.push(String::from_str("--src-creds"));
                let mut cred = ut;
                cred.append(":");
                cred.append(pt.as_str());
                proof {
                    assert(cred@ =~= spec_creds_arg(u@, p@));
                }
                args.push(cred);
            }
        },
        _ => {},
    }
    let mut source = String::from_str("docker://");
    source.append(reference);
    args.push(source);
    args.push(dest);

    let mut filename = repo.clone();
    filename.append("-");
    filename.append(tag.as_str());
    filename.append("-");
    filename.append(fmt.as_str());
    filename.append(".tar");
    proof {
        assert(filename@ =~= spec_image_filename(repo@, tag@, fmt@));
        assert(args.deep_view() =~= spec_image_args(
            reference@,
            username.deep_view(),
            password.deep_view(),
            spec_dest_descriptor(fmt@, tmp_path@, repo@, tag@),
        ));
    }
    Ok(ImagePullPlan { token, tmp_path, repo, tag, fmt, args, filename })
}

/// Translates the copy tool's outcome: success passes, a timeout, a spawn
/// failure or a classified non-zero exit becomes the matching error reply.
/// In every error branch the caller must remove the partly written
/// destination file before replying.
pub fn image_outcome_response(reference: &str, outcome: &ToolOutcome) -> (r: Result<
    (),
    ErrorResponse,
>)
    ensures
        (outcome is TimedOut) ==> (r matches Err(e) && e.status == 504 && e.message@
            == "Image pull timeout (exceeded 5 minutes)"@),
        (outcome matches ToolOutcome::SpawnFailed(SpawnFailure::ExecutableNotFound)) ==> (r matches
            Err(e) && e.status == 501 && e.message@ == "skopeo command not found"@),
        (outcome matches ToolOutcome::SpawnFailed(SpawnFailure::Other(m)) ==> (r matches Err(e)
            && e.status == 502 && e.message@ == "Failed to spawn skopeo: "@ + m@)),
        (outcome matches ToolOutcome::Exited { success: true, .. } ==> r is Ok),
        (outcome matches ToolOutcome::Exited { success: false, stderr } ==> (r matches Err(e) && ({
            let k = spec_classify_image(lower_of(stderr@));
            &&& (k == FailureKind::NotFound ==> e.status == 404 && e.message@
                == "Image not found: "@ + reference@)
            &&& (k == FailureKind::AccessDenied ==> e.status == 403 && e.message@
                == "Access denied to registry"@)
            &&& (k == FailureKind::Generic ==> e.status == 502 && e.message@
                == "Failed to copy image"@)
        }))),
{
    match outcome {
        ToolOutcome::TimedOut => Err(
            ErrorResponse {
                status: 504,
                message: String::from_str("Image pull timeout (exceeded 5 minutes)"),
            },
        ),
        ToolOutcome::SpawnFailed(SpawnFailure::ExecutableNotFound) => Err(
            ErrorResponse { status: 501, message: String::from_str("skopeo command not found") },
        ),
        ToolOutcome::SpawnFailed(SpawnFailure::Other(m)) => {
            let mut msg = String::from_str("Failed to spawn skopeo: ");
            msg.append(m.as_str());
            Err(ErrorResponse { status: 502, message: msg })
        },
        ToolOutcome::Exited { success, stderr } => {
            if *success {
                Ok(())
            } else {
                match classify_image(stderr.as_str()) {
                    FailureKind::NotFound => {
                        let mut msg = String::from_str("Image not found: ");
                        msg.append(reference);
                        Err(ErrorResponse { status: 404, message: msg })
                    },
                    FailureKind::AccessDenied => Err(
                        ErrorResponse {
                            status: 403,
                            message: String::from_str("Access denied to registry"),
                        },
                    ),
                    FailureKind::Generic => Err(
                        ErrorResponse {
                            status: 502,
                            message: String::from_str("Failed to copy image"),
                        },
                    ),
                }
            }
        },
    }
}

/// The reply when the produced archive's metadata cannot be read after the
/// tool succeeded; the artifact is removed before replying.
pub fn image_metadata_error() -> (e: ErrorResponse)
    ensures
        e.status == 500 && e.message@ == "Failed to prepare download"@,
{
    ErrorResponse { status: 500, message: String::from_str("Failed to prepare download") }
}

/// The reply when the produced archive cannot be opened for streaming; the
/// artifact is removed before replying.
pub fn image_open_error() -> (e: ErrorResponse)
    ensures
        e.status == 500 && e.message@ == "Failed to open archive"@,
{
    ErrorResponse { status: 500, message: String::from_str("Failed to open archive") }
}

/// The headers of a successful image reply: the archive media type, the
/// artifact's exact size, an attachment disposition naming the download, and
/// a directive not to cache.
pub fn image_success_head(plan: &ImagePullPlan, size: u64) -> (h: SuccessHead)
    ensures
        h.status == 200,
        h.content_type@ == "application/x-tar"@,
        h.content_length == size,
        h.content_disposition@ == "attachment; filename=\""@ + plan.filename@ + "\""@,
        h.cache_control@ == "no-store"@,
{
    let mut disposition = String::from_str("attachment; filename=\"");
    disposition.append(plan.filename.as_str());
    disposition.append("\"");
    SuccessHead {
        status: 200,
        content_type: String::from_str("application/x-tar"),
        content_length: size,
        content_disposition: disposition,
        cache_control: String::from_str("no-store"),
    }
}

} // verus!
