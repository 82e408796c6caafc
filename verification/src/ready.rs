//! The readiness probe: the trivial version invocation each external tool is
//! probed with, and the aggregate verdict.

use vstd::prelude::*;
use vstd::string::StringExecFns;

verus! {

/// The argument the image-copy tool is probed with.
pub fn skopeo_probe_args() -> (r: Vec<String>)
    ensures
        r.deep_view() == seq!["--version"@],
{
    let mut args: Vec<String> = Vec::new();
    args.push(String::from_str("--version"));
    proof {
        assert(args.deep_view() =~= seq!["--version"@]);
    }
    args
}

/// The argument the chart tool is probed with.
pub fn helm_probe_args() -> (r: Vec<String>)
    ensures
        r.deep_view() == seq!["version"@],
{
    let mut args: Vec<String> = Vec::new();
    args.push(String::from_str("version"));
    proof {
        assert(args.deep_view() =~= seq!["version"@]);
    }
    args
}

/// The aggregate readiness reply: ready exactly when every probe succeeded,
/// unavailable otherwise.
pub fn readiness_response(skopeo_ready: bool, helm_ready: bool) -> (r: (u16, String))
    ensures
        (skopeo_ready && helm_ready) ==> r.0 == 200 && r.1@ == "Ready"@,
        !(skopeo_ready && helm_ready) ==> r.0 == 503 && r.1@ == "Required tools not available"@,
{
    if skopeo_ready && helm_ready {
        (200, String::from_str("Ready"))
    } else {
        (503, String::from_str("Required tools not available"))
    }
}

} // verus!
