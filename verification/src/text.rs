//! Character-sequence searching, trimming and matching, with the spec
//! functions that the rest of the library states its contracts over.

use vstd::prelude::*;
use vstd::string::StrSliceExecFns;

verus! {

/// Index `i` starts an occurrence of `pat` inside `s`.
pub open spec fn match_at(s: Seq<char>, pat: Seq<char>, i: int) -> bool {
    0 <= i && i + pat.len() <= s.len() && s.subrange(i, i + pat.len() as int) == pat
}

/// `pat` occurs somewhere inside `s`.
pub open spec fn contains_seq(s: Seq<char>, pat: Seq<char>) -> bool {
    exists|i: int| match_at(s, pat, i)
}

/// `s` ends with the suffix `suf`.
pub open spec fn ends_with_seq(s: Seq<char>, suf: Seq<char>) -> bool {
    suf.len() <= s.len() && s.subrange(s.len() - suf.len(), s.len() as int) == suf
}

/// Position of the first occurrence of the character `c` in `s`.
pub open spec fn find_char(s: Seq<char>, c: char) -> Option<int>
    decreases s.len(),
{
    if s.len() == 0 {
        None
    } else if s[0] == c {
        Some(0)
    } else {
        match find_char(s.drop_first(), c) {
            Some(i) => Some(i + 1),
            None => None,
        }
    }
}

/// Position of the last occurrence of the character `c` in `s`.
pub open spec fn rfind_char(s: Seq<char>, c: char) -> Option<int>
    decreases s.len(),
{
    if s.len() == 0 {
        None
    } else if s[s.len() - 1] == c {
        Some(s.len() - 1)
    } else {
        rfind_char(s.drop_last(), c)
    }
}

/// Position of the first occurrence of `pat` inside `s`.
pub open spec fn find_sub(s: Seq<char>, pat: Seq<char>) -> Option<int>
    decreases s.len(),
{
    if match_at(s, pat, 0) {
        Some(0)
    } else if s.len() == 0 {
        None
    } else {
        match find_sub(s.drop_first(), pat) {
            Some(i) => Some(i + 1),
            None => None,
        }
    }
}

pub proof fn lemma_find_char_props(s: Seq<char>, c: char)
    ensures
        match find_char(s, c) {
            Some(i) => 0 <= i < s.len() && s[i] == c && (forall|j: int| 0 <= j < i ==> s[j] != c),
            None => forall|j: int| 0 <= j < s.len() ==> s[j] != c,
        },
    decreases s.len(),
{
    if s.len() == 0 {
    } else if s[0] == c {
    } else {
        lemma_find_char_props(s.drop_first(), c);
        match find_char(s.drop_first(), c) {
            Some(i) => {
                assert(s[i + 1] == s.drop_first()[i]);
                assert forall|j: int| 0 <= j < i + 1 implies s[j] != c by {
                    if j > 0 {
                        assert(s[j] == s.drop_first()[j - 1]);
                    }
                }
            },
            None => {
                assert forall|j: int| 0 <= j < s.len() implies s[j] != c by {
                    if j > 0 {
                        assert(s[j] == s.drop_first()[j - 1]);
                    }
                }
            },
        }
    }
}

pub proof fn lemma_rfind_char_props(s: Seq<char>, c: char)
    ensures
        match rfind_char(s, c) {
            Some(i) => 0 <= i < s.len() && s[i] == c && (forall|j: int|
                i < j < s.len() ==> s[j] != c),
            None => forall|j: int| 0 <= j < s.len() ==> s[j] != c,
        },
    decreases s.len(),
{
    if s.len() == 0 {
    } else if s[s.len() - 1] == c {
    } else {
        lemma_rfind_char_props(s.drop_last(), c);
        match rfind_char(s.drop_last(), c) {
            Some(i) => {
                assert(s[i] == s.drop_last()[i]);
                assert forall|j: int| i < j < s.len() implies s[j] != c by {
                    if j < s.len() - 1 {
                        assert(s[j] == s.drop_last()[j]);
                    }
                }
            },
            None => {
                assert forall|j: int| 0 <= j < s.len() implies s[j] != c by {
                    if j < s.len() - 1 {
                        assert(s[j] == s.drop_last()[j]);
                    }
                }
            },
        }
    }
}

proof fn lemma_match_at_shift(s: Seq<char>, pat: Seq<char>, i: int)
    requires
        s.len() > 0,
        0 <= i,
    ensures
        match_at(s.drop_first(), pat, i) <==> match_at(s, pat, i + 1),
{
    if match_at(s.drop_first(), pat, i) {
        assert(s.subrange(i + 1, i + 1 + pat.len() as int) =~= s.drop_first().subrange(
            i,
            i + pat.len() as int,
        ));
    }
    if match_at(s, pat, i + 1) {
        assert(s.drop_first().subrange(i, i + pat.len() as int) =~= s.subrange(
            i + 1,
            i + 1 + pat.len() as int,
        ));
    }
}

pub proof fn lemma_find_sub_props(s: Seq<char>, pat: Seq<char>)
    ensures
        match find_sub(s, pat) {
            Some(i) => match_at(s, pat, i) && (forall|j: int| 0 <= j < i ==> !match_at(s, pat, j)),
            None => forall|j: int| !match_at(s, pat, j),
        },
    decreases s.len(),
{
    if match_at(s, pat, 0) {
    } else if s.len() == 0 {
    } else {
        lemma_find_sub_props(s.drop_first(), pat);
        assert forall|j: int| 0 <= j implies (match_at(s.drop_first(), pat, j) <==> match_at(
            s,
            pat,
            j + 1,
        )) by {
            lemma_match_at_shift(s, pat, j);
        }
        match find_sub(s.drop_first(), pat) {
            Some(i) => {
                assert(match_at(s, pat, i + 1));
                assert forall|j: int| 0 <= j < i + 1 implies !match_at(s, pat, j) by {
                    if j > 0 {
                        assert(!match_at(s.drop_first(), pat, j - 1));
                    }
                }
            },
            None => {
                assert forall|j: int| !(#[trigger] match_at(s, pat, j)) by {
                    if 0 <= j && j > 0 {
                        assert(!match_at(s.drop_first(), pat, j - 1));
                    }
                }
            },
        }
    }
}

/// The Unicode white-space characters, the set that trimming strips.
pub open spec fn is_space_char(c: char) -> bool {
    let u = c as u32;
    (0x9 <= u && u <= 0xD) || u == 0x20 || u == 0x85 || u == 0xA0 || u == 0x1680 || (0x2000 <= u
        && u <= 0x200A) || u == 0x2028 || u == 0x2029 || u == 0x202F || u == 0x205F || u == 0x3000
}

/// `s` with leading white space removed.
pub open spec fn trim_start_spec(s: Seq<char>) -> Seq<char>
    decreases s.len(),
{
    if s.len() == 0 {
        s
    } else if is_space_char(s[0]) {
        trim_start_spec(s.drop_first())
    } else {
        s
    }
}

/// `s` with trailing white space removed.
pub open spec fn trim_end_spec(s: Seq<char>) -> Seq<char>
    decreases s.len(),
{
    if s.len() == 0 {
        s
    } else if is_space_char(s[s.len() - 1]) {
        trim_end_spec(s.drop_last())
    } else {
        s
    }
}

/// `s` with white space removed from both ends.
pub open spec fn trim_spec(s: Seq<char>) -> Seq<char> {
    trim_end_spec(trim_start_spec(s))
}

/// `s` with trailing `/` characters removed.
pub open spec fn trim_end_slashes(s: Seq<char>) -> Seq<char>
    decreases s.len(),
{
    if s.len() == 0 {
        s
    } else if s[s.len() - 1] == '/' {
        trim_end_slashes(s.drop_last())
    } else {
        s
    }
}

proof fn lemma_trim_start_at(s: Seq<char>, a: int)
    requires
        0 <= a <= s.len(),
        forall|j: int| 0 <= j < a ==> is_space_char(s[j]),
        a < s.len() ==> !is_space_char(s[a]),
    ensures
        trim_start_spec(s) == s.subrange(a, s.len() as int),
    decreases a,
{
    if a == 0 {
        assert(s.subrange(0, s.len() as int) =~= s);
    } else {
        let t = s.drop_first();
        assert(forall|j: int| 0 <= j < a - 1 ==> t[j] == s[j + 1]);
        assert(a - 1 < t.len() ==> t[a - 1] == s[a]);
        lemma_trim_start_at(t, a - 1);
        assert(t.subrange(a - 1, t.len() as int) =~= s.subrange(a, s.len() as int));
    }
}

proof fn lemma_trim_end_at(s: Seq<char>, b: int)
    requires
        0 <= b <= s.len(),
        forall|j: int| b <= j < s.len() ==> is_space_char(s[j]),
        b > 0 ==> !is_space_char(s[b - 1]),
    ensures
        trim_end_spec(s) == s.subrange(0, b),
    decreases s.len() - b,
{
    if b == s.len() {
        assert(s.subrange(0, b) =~= s);
    } else {
        let t = s.drop_last();
        assert(forall|j: int| b <= j < t.len() ==> t[j] == s[j]);
        assert(b > 0 ==> t[b - 1] == s[b - 1]);
        lemma_trim_end_at(t, b);
        assert(t.subrange(0, b) =~= s.subrange(0, b));
    }
}

proof fn lemma_trim_end_slashes_at(s: Seq<char>, b: int)
    requires
        0 <= b <= s.len(),
        forall|j: int| b <= j < s.len() ==> s[j] == '/',
        b > 0 ==> s[b - 1] != '/',
    ensures
        trim_end_slashes(s) == s.subrange(0, b),
    decreases s.len() - b,
{
    if b == s.len() {
        assert(s.subrange(0, b) =~= s);
    } else {
        let t = s.drop_last();
        assert(forall|j: int| b <= j < t.len() ==> t[j] == s[j]);
        assert(b > 0 ==> t[b - 1] == s[b - 1]);
        lemma_trim_end_slashes_at(t, b);
        assert(t.subrange(0, b) =~= s.subrange(0, b));
    }
}

/// Whether `c` is white space, as trimming sees it.
pub fn is_space(c: char) -> (r: bool)
    ensures
        r == is_space_char(c),
{
    let u: u32 = c as u32;
    (0x9 <= u && u <= 0xD) || u == 0x20 || u == 0x85 || u == 0xA0 || u == 0x1680 || (0x2000 <= u
        && u <= 0x200A) || u == 0x2028 || u == 0x2029 || u == 0x202F || u == 0x205F || u == 0x3000
}

/// Position of the first occurrence of `c` in `s`, if any.
pub fn find_char_str(s: &str, c: char) -> (r: Option<usize>)
    ensures
        (match r {
            Some(i) => find_char(s@, c) == Some(i as int),
            None => find_char(s@, c) is None,
        }),
{
    let n: usize = s.unicode_len();
    let mut k: usize = 0;
    loop
        invariant
            n == s@.len(),
            k <= n,
            forall|j: int| 0 <= j < k ==> s@[j] != c,
        decreases n - k,
    {
        if k == n {
            proof {
                lemma_find_char_props(s@, c);
            }
            return None;
        }
        if s.get_char(k) == c {
            proof {
                lemma_find_char_props(s@, c);
            }
            return Some(k);
        }
        k = k + 1;
    }
}

/// Position of the last occurrence of `c` in `s`, if any.
pub fn rfind_char_str(s: &str, c: char) -> (r: Option<usize>)
    ensures
        (match r {
            Some(i) => rfind_char(s@, c) == Some(i as int),
            None => rfind_char(s@, c) is None,
        }),
{
    let n: usize = s.unicode_len();
    let mut k: usize = n;
    loop
        invariant
            n == s@.len(),
            k <= n,
            forall|j: int| k <= j < n ==> s@[j] != c,
        decreases k,
    {
        if k == 0 {
            proof {
                lemma_rfind_char_props(s@, c);
            }
            return None;
        }
        if s.get_char(k - 1) == c {
            proof {
                lemma_rfind_char_props(s@, c);
            }
            return Some(k - 1);
        }
        k = k - 1;
    }
}

fn match_at_exec(s: &str, pat: &str, i: usize) -> (r: bool)
    requires
        i + pat@.len() <= s@.len(),
    ensures
        r == match_at(s@, pat@, i as int),
{
    let n: usize = s.unicode_len();
    let m: usize = pat.unicode_len();
    let mut t: usize = 0;
    loop
        invariant
            n == s@.len(),
            m == pat@.len(),
            i + m <= n,
            t <= m,
            forall|u: int| 0 <= u < t ==> s@[i + u] == pat@[u],
        decreases m - t,
    {
        if t == m {
            proof {
                assert(s@.subrange(i as int, i + m as int) =~= pat@);
            }
            return true;
        }
        if s.get_char(i + t) != pat.get_char(t) {
            proof {
                assert(s@.subrange(i as int, i + m as int)[t as int] == s@[i + t]);
            }
            return false;
        }
        t = t + 1;
    }
}

/// Whether `pat` occurs anywhere inside `s`.
pub fn contains_sub(s: &str, pat: &str) -> (r: bool)
    ensures
        r == contains_seq(s@, pat@),
{
    let n: usize = s.unicode_len();
    let m: usize = pat.unicode_len();
    if m == 0 {
        proof {
            assert(s@.subrange(0, 0) =~= pat@);
            assert(match_at(s@, pat@, 0));
        }
        return true;
    }
    if m > n {
        proof {
            assert forall|j: int| !(#[trigger] match_at(s@, pat@, j)) by {}
        }
        return false;
    }
    let mut i: usize = 0;
    loop
        invariant
            n == s@.len(),
            m == pat@.len(),
            1 <= m <= n,
            i <= n - m + 1,
            forall|j: int| 0 <= j < i ==> !match_at(s@, pat@, j),
        decreases n - m + 1 - i,
    {
        if i > n - m {
            proof {
                assert forall|j: int| !(#[trigger] match_at(s@, pat@, j)) by {
                    if match_at(s@, pat@, j) {
                        assert(0 <= j < i);
                    }
                }
            }
            return false;
        }
        if match_at_exec(s, pat, i) {
            proof {
                assert(match_at(s@, pat@, i as int));
            }
            return true;
        }
        i = i + 1;
    }
}

/// Position of the first occurrence of `pat` inside `s`, if any.
pub fn find_sub_str(s: &str, pat: &str) -> (r: Option<usize>)
    ensures
        (match r {
            Some(i) => find_sub(s@, pat@) == Some(i as int),
            None => find_sub(s@, pat@) is None,
        }),
{
    let n: usize = s.unicode_len();
    let m: usize = pat.unicode_len();
    if m == 0 {
        proof {
            assert(s@.subrange(0, 0) =~= pat@);
            assert(match_at(s@, pat@, 0));
        }
        return Some(0);
    }
    if m > n {
        proof {
            lemma_find_sub_props(s@, pat@);
            if find_sub(s@, pat@) is Some {
                assert(match_at(s@, pat@, find_sub(s@, pat@)->Some_0));
            }
        }
        return None;
    }
    let mut i: usize = 0;
    loop
        invariant
            n == s@.len(),
            m == pat@.len(),
            1 <= m <= n,
            i <= n - m + 1,
            forall|j: int| 0 <= j < i ==> !match_at(s@, pat@, j),
        decreases n - m + 1 - i,
    {
        if i > n - m {
            proof {
                lemma_find_sub_props(s@, pat@);
                if find_sub(s@, pat@) is Some {
                    let w = find_sub(s@, pat@)->Some_0;
                    assert(match_at(s@, pat@, w));
                    assert(0 <= w < i);
                }
            }
            return None;
        }
        if match_at_exec(s, pat, i) {
            proof {
                lemma_find_sub_props(s@, pat@);
                match find_sub(s@, pat@) {
                    Some(w) => {
                        if w < i {
                            assert(!match_at(s@, pat@, w));
                        }
                        if w > i {
                            assert(!match_at(s@, pat@, i as int));
                        }
                    },
                    None => {
                        assert(!match_at(s@, pat@, i as int));
                    },
                }
            }
            return Some(i);
        }
        i = i + 1;
    }
}

/// Whether `s` ends with the suffix `suf`.
pub fn ends_with_str(s: &str, suf: &str) -> (r: bool)
    ensures
        r == ends_with_seq(s@, suf@),
{
    let n: usize = s.unicode_len();
    let m: usize = suf.unicode_len();
    if m > n {
        return false;
    }
    let mut u: usize = 0;
    loop
        invariant
            n == s@.len(),
            m == suf@.len(),
            m <= n,
            u <= m,
            forall|t: int| 0 <= t < u ==> s@[n - m + t] == suf@[t],
        decreases m - u,
    {
        if u == m {
            proof {
                assert(s@.subrange(n - m as int, n as int) =~= suf@);
            }
            return true;
        }
        if s.get_char(n - m + u) != suf.get_char(u) {
            proof {
                assert(s@.subrange(n - m as int, n as int)[u as int] == s@[n - m + u]);
            }
            return false;
        }
        u = u + 1;
    }
}

/// Whether the two strings hold the same characters.
pub fn str_eq(a: &str, b: &str) -> (r: bool)
    ensures
        r == (a@ == b@),
{
    let n: usize = a.unicode_len();
    let m: usize = b.unicode_len();
    if n != m {
        return false;
    }
    let mut k: usize = 0;
    loop
        invariant
            n == a@.len(),
            n == b@.len(),
            k <= n,
            forall|j: int| 0 <= j < k ==> a@[j] == b@[j],
        decreases n - k,
    {
        if k == n {
            proof {
                assert(a@ =~= b@);
            }
            return true;
        }
        if a.get_char(k) != b.get_char(k) {
            return false;
        }
        k = k + 1;
    }
}

fn first_non_space(s: &str) -> (a: usize)
    ensures
        a <= s@.len(),
        forall|j: int| 0 <= j < a ==> is_space_char(s@[j]),
        a < s@.len() ==> !is_space_char(s@[a as int]),
{
    let n: usize = s.unicode_len();
    let mut a: usize = 0;
    loop
        invariant
            n == s@.len(),
            a <= n,
            forall|j: int| 0 <= j < a ==> is_space_char(s@[j]),
        decreases n - a,
    {
        if a == n {
            return a;
        }
        if !is_space(s.get_char(a)) {
            return a;
        }
        a = a + 1;
    }
}

/// `s` with white space removed from both ends.
pub fn trim_str(s: &str) -> (r: String)
    ensures
        r@ == trim_spec(s@),
{
    let n: usize = s.unicode_len();
    let a: usize = first_non_space(s);
    if a == n {
        proof {
            lemma_trim_start_at(s@, n as int);
            lemma_trim_end_at(s@.subrange(n as int, n as int), 0);
        }
        return String::new();
    }
    let mut b: usize = n;
    loop
        invariant
            n == s@.len(),
            a < n,
            a < b <= n,
            !is_space_char(s@[a as int]),
            forall|j: int| 0 <= j < a ==> is_space_char(s@[j]),
            forall|j: int| b <= j < n ==> is_space_char(s@[j]),
        decreases b,
    {
        if !is_space(s.get_char(b - 1)) {
            proof {
                lemma_trim_start_at(s@, a as int);
                let mid = s@.subrange(a as int, n as int);
                assert(forall|j: int| 0 <= j < mid.len() ==> mid[j] == s@[a + j]);
                lemma_trim_end_at(mid, b - a as int);
                assert(mid.subrange(0, b - a as int) =~= s@.subrange(a as int, b as int));
            }
            let piece = s.substring_char(a, b);
            return piece.to_owned();
        }
        b = b - 1;
    }
}

/// `s` with trailing `/` characters removed.
pub fn trim_end_slashes_str(s: &str) -> (r: String)
    ensures
        r@ == trim_end_slashes(s@),
{
    let n: usize = s.unicode_len();
    let mut b: usize = n;
    loop
        invariant
            n == s@.len(),
            b <= n,
            forall|j: int| b <= j < n ==> s@[j] == '/',
        decreases b,
    {
        if b == 0 {
            proof {
                lemma_trim_end_slashes_at(s@, 0);
            }
            let piece = s.substring_char(0, 0);
            return piece.to_owned();
        }
        if s.get_char(b - 1) != '/' {
            proof {
                lemma_trim_end_slashes_at(s@, b as int);
            }
            let piece = s.substring_char(0, b);
            return piece.to_owned();
        }
        b = b - 1;
    }
}

} // verus!
