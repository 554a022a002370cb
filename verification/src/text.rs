//! Substring matching over character sequences, exact or with ASCII case
//! folded.
//!
//! Log lines and pattern phrases are compared either character for
//! character or with ASCII case folded, so that a phrase such as
//! "SIM is Ready" can be found however the device capitalises it.

use vstd::prelude::*;

verus! {

/// True when `c` is an ASCII uppercase letter.
pub open spec fn is_ascii_upper(c: char) -> bool {
    65 <= (c as int) && (c as int) <= 90
}

/// The code point of `c` with ASCII uppercase folded to lowercase.
pub open spec fn folded_code(c: char) -> int {
    if is_ascii_upper(c) {
        (c as int) + 32
    } else {
        c as int
    }
}

/// Character equality, exact or up to ASCII case.
pub open spec fn char_eq(a: char, b: char, fold_case: bool) -> bool {
    if fold_case {
        folded_code(a) == folded_code(b)
    } else {
        a == b
    }
}

/// `needle` occurs in `hay` at offset `k`.
pub open spec fn match_at(hay: Seq<char>, needle: Seq<char>, k: int, fold_case: bool) -> bool {
    &&& 0 <= k
    &&& k + needle.len() <= hay.len()
    &&& forall|j: int| 0 <= j < needle.len() ==> char_eq(hay[k + j], needle[j], fold_case)
}

/// `needle` occurs somewhere in `hay`.
pub open spec fn text_contains(hay: Seq<char>, needle: Seq<char>, fold_case: bool) -> bool {
    exists|k: int| match_at(hay, needle, k, fold_case)
}

/// Compares two characters, exactly or up to ASCII case.
pub fn char_matches(a: char, b: char, fold_case: bool) -> (r: bool)
    ensures
        r == char_eq(a, b, fold_case),
{
    if !fold_case {
        return a == b;
    }
    let au: u32 = a as u32;
    let bu: u32 = b as u32;
    let af: u32 = if 65 <= au && au <= 90 {
        au + 32
    } else {
        au
    };
    let bf: u32 = if 65 <= bu && bu <= 90 {
        bu + 32
    } else {
        bu
    };
    af == bf
}

/// The characters of `s`, in order.
pub fn chars_of(s: &str) -> (v: Vec<char>)
    ensures
        v@ == s@,
{
    let mut v: Vec<char> = Vec::new();
    for c in it: s.chars()
        invariant
            it.seq() == s@,
            v@ == it.seq().take(it.index() as int),
    {
        v.push(c);
    }
    proof {
        assert(v@ =~= s@);
    }
    v
}

fn match_at_chars(hay: &Vec<char>, needle: &Vec<char>, k: usize, fold_case: bool) -> (r: bool)
    requires
        k + needle@.len() <= hay@.len(),
    ensures
        r == match_at(hay@, needle@, k as int, fold_case),
{
    let hay_len: usize = hay.len();
    let mut j: usize = 0;
    while j < needle.len()
        invariant
            hay_len == hay@.len(),
            k + needle@.len() <= hay@.len(),
            0 <= j <= needle@.len(),
            forall|t: int| 0 <= t < j ==> char_eq(hay@[k + t], needle@[t], fold_case),
        decreases needle@.len() - j,
    {
        if !char_matches(hay[k + j], needle[j], fold_case) {
            return false;
        }
        j = j + 1;
    }
    true
}

/// Whether `needle` occurs in `hay`, by exact or case-folded comparison.
pub fn contains_chars(hay: &Vec<char>, needle: &Vec<char>, fold_case: bool) -> (r: bool)
    ensures
        r == text_contains(hay@, needle@, fold_case),
{
    if needle.len() > hay.len() {
        assert(forall|k: int| !match_at(hay@, needle@, k, fold_case));
        return false;
    }
    if needle.len() == 0 {
        assert(match_at(hay@, needle@, 0, fold_case));
        return true;
    }
    let last: usize = hay.len() - needle.len();
    let mut k: usize = 0;
    while k <= last
        invariant
            needle@.len() <= hay@.len(),
            last == hay@.len() - needle@.len(),
            last < usize::MAX,
            0 <= k <= last + 1,
            forall|t: int| 0 <= t < k ==> !match_at(hay@, needle@, t, fold_case),
        decreases last + 1 - k,
    {
        if match_at_chars(hay, needle, k, fold_case) {
            return true;
        }
        k = k + 1;
    }
    assert(forall|t: int| match_at(hay@, needle@, t, fold_case) ==> 0 <= t <= last);
    false
}

/// Whether `needle` occurs in `hay`, by exact or case-folded comparison.
pub fn str_contains(hay: &str, needle: &str, fold_case: bool) -> (r: bool)
    ensures
        r == text_contains(hay@, needle@, fold_case),
{
    let h = chars_of(hay);
    let n = chars_of(needle);
    contains_chars(&h, &n, fold_case)
}

/// Exact (case-sensitive) string equality.
pub fn str_eq(a: &str, b: &str) -> (r: bool)
    ensures
        r == (a@ == b@),
{
    let av = chars_of(a);
    let bv = chars_of(b);
    if av.len() != bv.len() {
        return false;
    }
    let mut i: usize = 0;
    while i < av.len()
        invariant
            av@ == a@,
            bv@ == b@,
            av@.len() == bv@.len(),
            0 <= i <= av@.len(),
            forall|t: int| 0 <= t < i ==> av@[t] == bv@[t],
        decreases av@.len() - i,
    {
        if av[i] != bv[i] {
            return false;
        }
        i = i + 1;
    }
    proof {
        assert(a@ =~= b@);
    }
    true
}

} // verus!
