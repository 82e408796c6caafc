pub mod artifact;
pub mod chart;
pub mod classify;
pub mod image;
pub mod index;
pub mod invoke;
pub mod ready;
pub mod response;
pub mod reference;
pub mod text;

use vstd::prelude::*;
use vstd::string::StringExecFns;

pub use reference::{parse_repo_tag, valid_ref};

verus! {

/// The archive format name used when a pull request names no recognized
/// format, or none at all.
pub fn default_format() -> (r: String)
    ensures
        r@ == "docker-archive"@,
{
    String::from_str("docker-archive")
}

} // verus!
