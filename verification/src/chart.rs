//! The chart pull orchestration: validating the request, building the pull
//! tool's command line against a fresh destination directory, translating the
//! tool's outcome, and shaping the success headers for the located archive.

use vstd::prelude::*;
use vstd::string::StrSliceExecFns;
use vstd::string::StringExecFns;

use crate::artifact::{chart_temp_dir, fresh_token, spec_chart_temp_dir, token_shaped};
use crate::classify::{classify_chart, lower_of, spec_classify_chart, FailureKind};
use crate::image::creds_present;
use crate::invoke::{SpawnFailure, ToolOutcome};
use crate::reference::{last_path_segment, last_segment, valid_ref, valid_ref_seq};
use crate::response::{ErrorResponse, SuccessHead};
use crate::text::{trim_spec, trim_str};

verus! {

/// The full argument list of the chart pull invocation.
pub open spec fn spec_chart_args(
    reference: Seq<char>,
    version: Option<Seq<char>>,
    u: Option<Seq<char>>,
    p: Option<Seq<char>>,
    dest_dir: Seq<char>,
) -> Seq<Seq<char>> {
    let creds = if creds_present(u, p) {
        seq!["--username"@, trim_spec(u->Some_0), "--password"@, trim_spec(p->Some_0)]
    } else {
        Seq::<Seq<char>>::empty()
    };
    let ver = match version {
        Some(v) => if trim_spec(v).len() > 0 {
            seq!["--version"@, trim_spec(v)]
        } else {
            Seq::<Seq<char>>::empty()
        },
        None => Seq::<Seq<char>>::empty(),
    };
    seq!["pull"@] + creds + ver + seq!["--destination"@, dest_dir, "oci://"@ + reference]
}

/// The download file name offered for a pulled chart: the chart's name, the
/// requested version when one was given, and the archive extension.
pub open spec fn spec_chart_filename(name: Seq<char>, version: Option<Seq<char>>) -> Seq<char> {
    match version {
        Some(v) => name + "-"@ + v + ".tgz"@,
        None => name + ".tgz"@,
    }
}

/// Everything a validated chart pull needs before the tool runs.
pub struct ChartPullPlan {
    /// The fresh per-request token the destination is named with.
    pub token: String,
    /// The destination directory, created before the tool runs.
    pub tmp_dir: String,
    /// The chart's name: the last path segment of the reference.
    pub chart_name: String,
    /// The pull tool's argument list.
    pub args: Vec<String>,
    /// The download file name offered to the caller.
    pub filename: String,
}

/// Validates a chart pull request and lays out the tool invocation: the
/// reference must be non-blank and well-formed, the destination is a fresh
/// uniquely-named directory, and credentials or a version join the arguments
/// only when non-blank.
pub fn prepare_chart_pull(
    reference: &str,
    version: &Option<String>,
    username: &Option<String>,
    password: &Option<String>,
    tmp_root: &str,
) -> (r: Result<ChartPullPlan, ErrorResponse>)
    ensures
        trim_spec(reference@).len() == 0 ==> (r matches Err(e) && e.status == 400 && e.message@
            == "Missing chart reference"@),
        trim_spec(reference@).len() > 0 && !valid_ref_seq(reference@) ==> (r matches Err(e)
            && e.status == 400 && e.message@ == "Invalid chart reference format"@),
        trim_spec(reference@).len() > 0 && valid_ref_seq(reference@) ==> (r matches Ok(plan) && ({
            &&& token_shaped(plan.token@)
            &&& plan.tmp_dir@ == spec_chart_temp_dir(tmp_root@, plan.token@)
            &&& plan.chart_name@ == last_segment(reference@)
            &&& plan.args.deep_view() == spec_chart_args(
                reference@,
                version.deep_view(),
                username.deep_view(),
                password.deep_view(),
                plan.tmp_dir@,
            )
            &&& plan.filename@ == spec_chart_filename(plan.chart_name@, version.deep_view())
        })),
{
    let t = trim_str(reference);
    if t.as_str().unicode_len() == 0 {
        return Err(
            ErrorResponse { status: 400, message: String::from_str("Missing chart reference") },
        );
    }
    if !valid_ref(reference) {
        return Err(
            ErrorResponse {
                status: 400,
                message: String::from_str("Invalid chart reference format"),
            },
        );
    }
    let token = fresh_token();
    let tmp_dir = chart_temp_dir(tmp_root, token.as_str());

    let mut args: Vec<String> = Vec::new();
    args.push(String::from_str("pull"));
    match (username, password) {
        (Some(u), Some(p)) => {
            let ut = trim_str(u.as_str());
            let pt = trim_str(p.as_str());
            if ut.as_str().unicode_len() > 0 && pt.as_str().unicode_len() > 0 {
                args.push(String::from_str("--username"));
                args.push(ut);
                args.push(String::from_str("--password"));
                args.push(pt);
            }
        },
        _ => {},
    }
    match version {
        Some(v) => {
            let vt = trim_str(v.as_str());
            if vt.as_str().unicode_len() > 0 {
                args.push(String::from_str("--version"));
                args.push(vt);
            }
        },
        None => {},
    }
    args.push(String::from_str("--destination"));
    args.push(tmp_dir.clone());
    let mut source = String::from_str("oci://");
    source.append(reference);
    args.push(source);

    let chart_name = last_path_segment(reference);
    let mut filename = chart_name.clone();
    match version {
        Some(v) => {
            filename.append("-");
            filename.append(v.as_str());
        },
        None => {},
    }
    filename.append(".tgz");
    proof {
        assert(filename@ =~= spec_chart_filename(chart_name@, version.deep_view()));
        assert(args.deep_view() =~= spec_chart_args(
            reference@,
            version.deep_view(),
            username.deep_view(),
            password.deep_view(),
            tmp_dir@,
        ));
    }
    Ok(ChartPullPlan { token, tmp_dir, chart_name, args, filename })
}

/// The reply when the destination directory cannot be created.
pub fn chart_mkdir_error() -> (e: ErrorResponse)
    ensures
        e.status == 500 && e.message@ == "Failed to create temp directory"@,
{
    ErrorResponse { status: 500, message: String::from_str("Failed to create temp directory") }
}

/// Translates the pull tool's outcome: success passes, a timeout, a spawn
/// failure or a classified non-zero exit becomes the matching error reply.
/// In every error branch the caller must remove the destination directory
/// before replying.
pub fn chart_outcome_response(reference: &str, outcome: &ToolOutcome) -> (r: Result<
    (),
    ErrorResponse,
>)
    ensures
        (outcome is TimedOut) ==> (r matches Err(e) && e.status == 504 && e.message@
            == "Chart pull timeout (exceeded 5 minutes)"@),
        (outcome matches ToolOutcome::SpawnFailed(SpawnFailure::ExecutableNotFound)) ==> (r matches
            Err(e) && e.status == 501 && e.message@ == "helm command not found"@),
        (outcome matches ToolOutcome::SpawnFailed(SpawnFailure::Other(m)) ==> (r matches Err(e)
            && e.status == 502 && e.message@ == "Failed to spawn helm: "@ + m@)),
        (outcome matches ToolOutcome::Exited { success: true, .. } ==> r is Ok),
        (outcome matches ToolOutcome::Exited { success: false, stderr } ==> (r matches Err(e) && ({
            let k = spec_classify_chart(lower_of(stderr@));
            &&& (k == FailureKind::NotFound ==> e.status == 404 && e.message@
                == "Chart not found: "@ + reference@)
            &&& (k == FailureKind::AccessDenied ==> e.status == 403 && e.message@
                == "Access denied to registry"@)
            &&& (k == FailureKind::Generic ==> e.status == 502 && e.message@
                == "Failed to pull chart"@)
        }))),
{
    match outcome {
        ToolOutcome::TimedOut => Err(
            ErrorResponse {
                status: 504,
                message: String::from_str("Chart pull timeout (exceeded 5 minutes)"),
            },
        ),
        ToolOutcome::SpawnFailed(SpawnFailure::ExecutableNotFound) => Err(
            ErrorResponse { status: 501, message: String::from_str("helm command not found") },
        ),
        ToolOutcome::SpawnFailed(SpawnFailure::Other(m)) => {
            let mut msg = String::from_str("Failed to spawn helm: ");
            msg.append(m.as_str());
            Err(ErrorResponse { status: 502, message: msg })
        },
        ToolOutcome::Exited { success, stderr } => {
            if *success {
                Ok(())
            } else {
                match classify_chart(stderr.as_str()) {
                    FailureKind::NotFound => {
                        let mut msg = String::from_str("Chart not found: ");
                        msg.append(reference);
                        Err(ErrorResponse { status: 404, message: msg })
                    },
                    FailureKind::AccessDenied => Err(
                        ErrorResponse {
                            status: 403,
                            message: String::from_str("Access denied to registry"),
                        },
                    ),
                    FailureKind::Generic => Err(
                        ErrorResponse {
                            status: 502,
                            message: String::from_str("Failed to pull chart"),
                        },
                    ),
                }
            }
        },
    }
}

/// The reply when the destination directory cannot be listed after the tool
/// succeeded; the directory is removed before replying.
pub fn chart_read_dir_error() -> (e: ErrorResponse)
    ensures
        e.status == 500 && e.message@ == "Failed to read chart files"@,
{
    ErrorResponse { status: 500, message: String::from_str("Failed to read chart files") }
}

/// The reply when the tool reported success but no archive is in the
/// destination directory; the directory is removed before replying.
pub fn chart_no_archive_error() -> (e: ErrorResponse)
    ensures
        e.status == 500 && e.message@ == "No chart file generated"@,
{
    ErrorResponse { status: 500, message: String::from_str("No chart file generated") }
}

/// The reply when the located archive's metadata cannot be read; the
/// directory is removed before replying.
pub fn chart_metadata_error() -> (e: ErrorResponse)
    ensures
        e.status == 500 && e.message@ == "Failed to prepare download"@,
{
    ErrorResponse { status: 500, message: String::from_str("Failed to prepare download") }
}

/// The reply when the located archive cannot be opened for streaming; the
/// directory is removed before replying.
pub fn chart_open_error() -> (e: ErrorResponse)
    ensures
        e.status == 500 && e.message@ == "Failed to open chart file"@,
{
    ErrorResponse { status: 500, message: String::from_str("Failed to open chart file") }
}

/// The headers of a successful chart reply: the gzip media type, the
/// archive's exact size, an attachment disposition naming the download, and
/// a directive not to cache.
pub fn chart_success_head(plan: &ChartPullPlan, size: u64) -> (h: SuccessHead)
    ensures
        h.status == 200,
        h.content_type@ == "application/gzip"@,
        h.content_length == size,
        h.content_disposition@ == "attachment; filename=\""@ + plan.filename@ + "\""@,
        h.cache_control@ == "no-store"@,
{
    let mut disposition = String::from_str("attachment; filename=\"");
    disposition.append(plan.filename.as_str());
    disposition.append("\"");
    SuccessHead {
        status: 200,
        content_type: String::from_str("application/gzip"),
        content_length: size,
        content_disposition: disposition,
        cache_control: String::from_str("no-store"),
    }
}

} // verus!
