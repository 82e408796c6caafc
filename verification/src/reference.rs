//! Registry reference validation and decomposition: the permitted character
//! set, and the rule that splits a reference into a repository short name and
//! a tag.

use vstd::prelude::*;
use vstd::string::StrSliceExecFns;
use vstd::string::StringExecFns;

use crate::text::{
    find_char, find_char_str, find_sub, find_sub_str, lemma_find_sub_props, match_at, rfind_char,
    rfind_char_str,
};

verus! {

/// `s` with any `scheme://` prefix removed: the text after the first `://`,
/// or all of `s` when it has none.
pub open spec fn strip_transport(s: Seq<char>) -> Seq<char> {
    match find_sub(s, "://"@) {
        Some(i) => s.subrange(i + 3, s.len() as int),
        None => s,
    }
}

/// `s` with the leading registry-host segment dropped: the text after the
/// first `/`, or all of `s` when it has none.
pub open spec fn after_registry(s: Seq<char>) -> Seq<char> {
    match find_char(s, '/') {
        Some(i) => s.subrange(i + 1, s.len() as int),
        None => s,
    }
}

/// The text after the last `/` of `s`, or all of `s` when it has none.
pub open spec fn last_segment(s: Seq<char>) -> Seq<char> {
    match rfind_char(s, '/') {
        Some(i) => s.subrange(i + 1, s.len() as int),
        None => s,
    }
}

/// The characters a reference may hold: letters, digits, `.`, `/`, `:`, `@`,
/// `_` and `-`.
pub open spec fn is_ref_char(c: char) -> bool {
    let u = c as u32;
    (0x41 <= u && u <= 0x5A) || (0x61 <= u && u <= 0x7A) || (0x30 <= u && u <= 0x39) || c == '.'
        || c == '/' || c == ':' || c == '@' || c == '_' || c == '-'
}

/// A reference is valid when it is non-empty and every character is permitted.
pub open spec fn valid_ref_seq(s: Seq<char>) -> bool {
    s.len() > 0 && (forall|i: int| 0 <= i < s.len() ==> is_ref_char(s[i]))
}

/// Whether `s` is a well-formed registry reference.
pub fn valid_ref(s: &str) -> (r: bool)
    ensures
        r == valid_ref_seq(s@),
{
    let n: usize = s.unicode_len();
    if n == 0 {
        return false;
    }
    let mut k: usize = 0;
    loop
        invariant
            n == s@.len(),
            n > 0,
            k <= n,
            forall|j: int| 0 <= j < k ==> is_ref_char(s@[j]),
        decreases n - k,
    {
        if k == n {
            return true;
        }
        let c: char = s.get_char(k);
        let u: u32 = c as u32;
        let ok: bool = (0x41 <= u && u <= 0x5A) || (0x61 <= u && u <= 0x7A) || (0x30 <= u && u
            <= 0x39) || c == '.' || c == '/' || c == ':' || c == '@' || c == '_' || c == '-';
        if !ok {
            return false;
        }
        k = k + 1;
    }
}

/// A reference holding any character outside the permitted set is invalid,
/// whatever else it holds; the pull flows reject it before any external
/// process runs.
pub proof fn lemma_foreign_char_invalidates(s: Seq<char>, i: int)
    requires
        0 <= i < s.len(),
        !is_ref_char(s[i]),
    ensures
        !valid_ref_seq(s),
{
}

/// The repository short name and the tag that a reference decomposes into:
/// any `scheme://` prefix and the leading registry-host segment are dropped;
/// a `@digest` suffix fixes the tag to `latest`; otherwise the tag is the
/// text after the last `:`, `latest` when that is absent or empty; the name
/// is the last `/`-separated segment before the tag.
pub open spec fn spec_repo_tag(reference: Seq<char>) -> (Seq<char>, Seq<char>) {
    let rest = after_registry(strip_transport(reference));
    match find_char(rest, '@') {
        Some(i) => (last_segment(rest.subrange(0, i)), "latest"@),
        None => match rfind_char(rest, ':') {
            Some(i) => {
                let tag = rest.subrange(i + 1, rest.len() as int);
                (last_segment(rest.subrange(0, i)), if tag.len() == 0 {
                    "latest"@
                } else {
                    tag
                })
            },
            None => (last_segment(rest), "latest"@),
        },
    }
}

/// The text after the last `/` of `s`, or all of `s` when it has none.
pub fn last_path_segment(s: &str) -> (r: String)
    ensures
        r@ == last_segment(s@),
{
    let n: usize = s.unicode_len();
    match rfind_char_str(s, '/') {
        Some(i) => {
            proof {
                crate::text::lemma_rfind_char_props(s@, '/');
            }
            s.substring_char(i + 1, n).to_owned()
        },
        None => s.to_owned(),
    }
}

/// Decomposes a reference into its repository short name and tag.
pub fn parse_repo_tag(reference: &str) -> (r: (String, String))
    ensures
        r.0@ == spec_repo_tag(reference@).0,
        r.1@ == spec_repo_tag(reference@).1,
{
    let n: usize = reference.unicode_len();
    let stripped: &str = match find_sub_str(reference, "://") {
        Some(i) => {
            proof {
                reveal_strlit("://");
                lemma_find_sub_props(reference@, "://"@);
                assert(match_at(reference@, "://"@, i as int));
            }
            reference.substring_char(i + 3, n)
        },
        None => reference,
    };
    proof {
        assert(stripped@ == strip_transport(reference@));
    }
    let sn: usize = stripped.unicode_len();
    let rest: &str = match find_char_str(stripped, '/') {
        Some(i) => {
            proof {
                crate::text::lemma_find_char_props(stripped@, '/');
            }
            stripped.substring_char(i + 1, sn)
        },
        None => stripped,
    };
    proof {
        assert(rest@ == after_registry(stripped@));
    }
    let rn: usize = rest.unicode_len();
    if let Some(i) = find_char_str(rest, '@') {
        proof {
            crate::text::lemma_find_char_props(rest@, '@');
        }
        let name = rest.substring_char(0, i);
        return (last_path_segment(name), String::from_str("latest"));
    }
    match rfind_char_str(rest, ':') {
        Some(i) => {
            proof {
                crate::text::lemma_rfind_char_props(rest@, ':');
            }
            let name = rest.substring_char(0, i);
            let tag = rest.substring_char(i + 1, rn);
            let repo = last_path_segment(name);
            if tag.unicode_len() == 0 {
                (repo, String::from_str("latest"))
            } else {
                (repo, tag.to_owned())
            }
        },
        None => (last_path_segment(rest), String::from_str("latest")),
    }
}

} // verus!
