//! Temporary-artifact naming and lifecycle policy: per-request unique tokens,
//! the paths built from them, locating the produced archive in a directory,
//! and the deferred-deletion schedule.

use vstd::prelude::*;
use vstd::string::StrSliceExecFns;
use vstd::string::StringExecFns;

use crate::text::{ends_with_seq, ends_with_str};

verus! {

/// The characters a fresh token is rendered with: lower-case hexadecimal
/// digits and hyphens.
pub open spec fn is_token_char(c: char) -> bool {
    let u = c as u32;
    (0x30 <= u && u <= 0x39) || (0x61 <= u && u <= 0x66) || c == '-'
}

/// The shape every fresh token has: 36 such characters.
pub open spec fn token_shaped(t: Seq<char>) -> bool {
    t.len() == 36 && (forall|i: int| 0 <= i < t.len() ==> is_token_char(t[i]))
}

/// Relies on uuid::Uuid::new_v4 and its Display rendering: a fresh random
/// identifier printed hyphenated and lower-case, 36 characters of hexadecimal
/// digits and hyphens. Nothing is assumed about which identifier comes back.
#[verifier::external_body]
pub(crate) fn fresh_token() -> (r: String)
    ensures
        token_shaped(r@),
{
    uuid::Uuid::new_v4().to_string()
}

/// The destination file for an image pull: `<root>/images-<token>.tar`.
pub open spec fn spec_image_temp_path(root: Seq<char>, token: Seq<char>) -> Seq<char> {
    root + "/images-"@ + token + ".tar"@
}

/// The destination directory for a chart pull: `<root>/charts-<token>`.
pub open spec fn spec_chart_temp_dir(root: Seq<char>, token: Seq<char>) -> Seq<char> {
    root + "/charts-"@ + token
}

/// Builds the image destination path under the temporary root.
pub fn image_temp_path(tmp_root: &str, token: &str) -> (r: String)
    ensures
        r@ == spec_image_temp_path(tmp_root@, token@),
{
    let mut out = tmp_root.to_owned();
    out.append("/images-");
    out.append(token);
    out.append(".tar");
    proof {
        assert(out@ =~= spec_image_temp_path(tmp_root@, token@));
    }
    out
}

/// Builds the chart destination directory under the temporary root.
pub fn chart_temp_dir(tmp_root: &str, token: &str) -> (r: String)
    ensures
        r@ == spec_chart_temp_dir(tmp_root@, token@),
{
    let mut out = tmp_root.to_owned();
    out.append("/charts-");
    out.append(token);
    proof {
        assert(out@ =~= spec_chart_temp_dir(tmp_root@, token@));
    }
    out
}

/// Two image pulls under one temporary root share a destination path only if
/// they drew the same token: requests with distinct tokens never share an
/// artifact.
pub proof fn lemma_image_paths_identify_tokens(root: Seq<char>, t1: Seq<char>, t2: Seq<char>)
    requires
        t1.len() == t2.len(),
        spec_image_temp_path(root, t1) == spec_image_temp_path(root, t2),
    ensures
        t1 == t2,
{
    reveal_strlit("/images-");
    let head = root + "/images-"@;
    assert forall|i: int| 0 <= i < t1.len() implies t1[i] == t2[i] by {
        assert((head + t1 + ".tar"@)[head.len() + i] == t1[i]);
        assert((head + t2 + ".tar"@)[head.len() + i] == t2[i]);
    }
    assert(t1 =~= t2);
}

/// The same for chart pulls: distinct tokens give distinct directories.
pub proof fn lemma_chart_dirs_identify_tokens(root: Seq<char>, t1: Seq<char>, t2: Seq<char>)
    requires
        t1.len() == t2.len(),
        spec_chart_temp_dir(root, t1) == spec_chart_temp_dir(root, t2),
    ensures
        t1 == t2,
{
    reveal_strlit("/charts-");
    let head = root + "/charts-"@;
    assert forall|i: int| 0 <= i < t1.len() implies t1[i] == t2[i] by {
        assert((head + t1)[head.len() + i] == t1[i]);
        assert((head + t2)[head.len() + i] == t2[i]);
    }
    assert(t1 =~= t2);
}

/// A directory entry counts as the produced chart archive when its name ends
/// in `.tgz` (with a non-empty stem before the dot).
pub open spec fn is_tgz_name(name: Seq<char>) -> bool {
    name.len() >= 5 && ends_with_seq(name, ".tgz"@)
}

/// Whether a file name carries the chart-archive extension.
pub fn is_tgz(name: &str) -> (r: bool)
    ensures
        r == is_tgz_name(name@),
{
    name.unicode_len() >= 5 && ends_with_str(name, ".tgz")
}

/// The first directory entry that carries the chart-archive extension, if
/// any, as an index into `entries`.
pub fn select_chart_archive(entries: &Vec<String>) -> (r: Option<usize>)
    ensures
        (match r {
            Some(i) => i < entries@.len() && is_tgz_name(entries@[i as int]@) && (forall|j: int|
                0 <= j < i ==> !is_tgz_name(entries@[j]@)),
            None => forall|j: int| 0 <= j < entries@.len() ==> !is_tgz_name(entries@[j]@),
        }),
{
    let mut i: usize = 0;
    loop
        invariant
            i <= entries@.len(),
            forall|j: int| 0 <= j < i ==> !is_tgz_name(entries@[j]@),
        decreases entries@.len() - i,
    {
        if i == entries.len() {
            return None;
        }
        if is_tgz(entries[i].as_str()) {
            return Some(i);
        }
        i = i + 1;
    }
}

/// How a finished response's artifact is reclaimed: wait `delay_ms`, then try
/// deletion up to `attempts` times, `interval_ms` apart, and give up (logging
/// only) when all fail.
pub struct CleanupPolicy {
    pub delay_ms: u64,
    pub attempts: u32,
    pub interval_ms: u64,
}

/// The reclamation schedule for an image's single archive file.
pub fn image_cleanup_policy() -> (p: CleanupPolicy)
    ensures
        p.delay_ms == 500 && p.attempts == 3 && p.interval_ms == 500,
{
    CleanupPolicy { delay_ms: 500, attempts: 3, interval_ms: 500 }
}

/// The reclamation schedule for a chart's directory, delayed much longer
/// because removal with still-open handles fails more often.
pub fn chart_cleanup_policy() -> (p: CleanupPolicy)
    ensures
        p.delay_ms == 30000 && p.attempts == 3 && p.interval_ms == 500,
{
    CleanupPolicy { delay_ms: 30000, attempts: 3, interval_ms: 500 }
}

} // verus!
