//! Character-level substring scanning.
//!
//! The portal's responses are read with offset scans, not a structured
//! parser, so everything in this crate reduces to "find the first place a
//! needle occurs in a haystack, at or after a position".  Matching is
//! either exact or ASCII-case-insensitive; the latter mirrors how the
//! portal's markup is matched without regard to letter case.

use vstd::prelude::*;

verus! {

/// ASCII-case-insensitive character equality: equal outright, or equal
/// up to the ASCII upper/lower case distinction.
pub open spec fn chars_eq_ci(a: char, b: char) -> bool {
    ||| a == b
    ||| ('A' <= a && a <= 'Z' && b as u32 == a as u32 + 32)
    ||| ('A' <= b && b <= 'Z' && a as u32 == b as u32 + 32)
}

/// Character match under the chosen mode: case-insensitive when `ci` is
/// set, exact otherwise.
pub open spec fn char_match(a: char, b: char, ci: bool) -> bool {
    if ci {
        chars_eq_ci(a, b)
    } else {
        a == b
    }
}

/// The needle occurs in the haystack at position `i`.
pub open spec fn matches_at(hay: Seq<char>, needle: Seq<char>, i: int, ci: bool) -> bool {
    &&& 0 <= i
    &&& i + needle.len() <= hay.len()
    &&& forall|j: int| 0 <= j < needle.len() ==> char_match(hay[i + j], needle[j], ci)
}

/// Two character sequences are equal up to ASCII case.
pub open spec fn seq_eq_ci(a: Seq<char>, b: Seq<char>) -> bool {
    a.len() == b.len() && matches_at(a, b, 0, true)
}

/// The first position at or after `from` where the needle occurs, if any.
pub open spec fn find_from(hay: Seq<char>, needle: Seq<char>, from: int, ci: bool) -> Option<int>
    decreases hay.len() - from,
{
    if from < 0 || from + needle.len() > hay.len() {
        None
    } else if matches_at(hay, needle, from, ci) {
        Some(from)
    } else {
        find_from(hay, needle, from + 1, ci)
    }
}

/// What `find_from` returns is the least match position at or after
/// `from`; `None` means there is none at all.
pub proof fn lemma_find_from(hay: Seq<char>, needle: Seq<char>, from: int, ci: bool)
    requires
        0 <= from,
    ensures
        match find_from(hay, needle, from, ci) {
            Some(i) => from <= i && matches_at(hay, needle, i, ci) && (forall|k: int|
                from <= k < i ==> !matches_at(hay, needle, k, ci)),
            None => forall|k: int| from <= k ==> !matches_at(hay, needle, k, ci),
        },
    decreases hay.len() - from,
{
    if from + needle.len() > hay.len() {
        assert forall|k: int| from <= k implies !matches_at(hay, needle, k, ci) by {}
    } else if matches_at(hay, needle, from, ci) {
    } else {
        lemma_find_from(hay, needle, from + 1, ci);
    }
}

pub(crate) fn char_match_exec(a: char, b: char, ci: bool) -> (r: bool)
    ensures
        r == char_match(a, b, ci),
{
    if a == b {
        true
    } else if ci {
        ('A' <= a && a <= 'Z' && b as u32 == a as u32 + 32) || ('A' <= b && b <= 'Z' && a as u32
            == b as u32 + 32)
    } else {
        false
    }
}

fn matches_at_exec(hay: &Vec<char>, needle: &Vec<char>, i: usize, ci: bool) -> (r: bool)
    requires
        i + needle@.len() <= hay@.len(),
    ensures
        r == matches_at(hay@, needle@, i as int, ci),
{
    let n = needle.len();
    let m = hay.len();
    let mut j: usize = 0;
    while j < n
        invariant
            n == needle@.len(),
            m == hay@.len(),
            i + needle@.len() <= hay@.len(),
            j <= needle@.len(),
            forall|k: int| 0 <= k < j ==> char_match(hay@[i + k], needle@[k], ci),
        decreases needle@.len() - j,
    {
        proof {
            assert(i + j < m);
        }
        if !char_match_exec(hay[i + j], needle[j], ci) {
            assert(!char_match(hay@[i + j], needle@[j as int], ci));
            return false;
        }
        j += 1;
    }
    true
}

/// Find the first occurrence of `needle` in `hay` at or after `from`,
/// exactly or up to ASCII case.
pub fn find_in(hay: &Vec<char>, needle: &Vec<char>, from: usize, ci: bool) -> (r: Option<usize>)
    ensures
        match r {
            Some(i) => find_from(hay@, needle@, from as int, ci) == Some(i as int),
            None => find_from(hay@, needle@, from as int, ci) is None,
        },
{
    if needle.len() > hay.len() {
        return None;
    }
    let last = hay.len() - needle.len();
    if from > last {
        return None;
    }
    let mut i: usize = from;
    loop
        invariant
            needle@.len() <= hay@.len(),
            last == hay@.len() - needle@.len(),
            from <= i <= last,
            find_from(hay@, needle@, from as int, ci) == find_from(hay@, needle@, i as int, ci),
        decreases last - i,
    {
        if matches_at_exec(hay, needle, i, ci) {
            return Some(i);
        }
        assert(find_from(hay@, needle@, i as int, ci) == find_from(hay@, needle@, i + 1, ci));
        if i == last {
            assert(find_from(hay@, needle@, i + 1, ci) is None);
            return None;
        }
        i += 1;
    }
}

} // verus!
