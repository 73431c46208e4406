//! Substring search over character sequences.
//!
//! Positions count characters. On ASCII text, which is what tag and attribute
//! names are made of, they are byte offsets as well.

use vstd::prelude::*;
use vstd::string::*;

verus! {

/// `needle` occurs in `hay` at position `at`.
pub open spec fn matches_at(hay: Seq<char>, needle: Seq<char>, at: int) -> bool {
    &&& 0 <= at
    &&& at + needle.len() <= hay.len()
    &&& hay.subrange(at, at + needle.len()) == needle
}

/// The first position at or after `from` where `needle` occurs in `hay`.
pub open spec fn first_match_from(hay: Seq<char>, needle: Seq<char>, from: int) -> Option<int>
    decreases hay.len() + 1 - from,
{
    if from < 0 || from + needle.len() > hay.len() {
        None
    } else if matches_at(hay, needle, from) {
        Some(from)
    } else {
        first_match_from(hay, needle, from + 1)
    }
}

/// The first position where `needle` occurs in `hay`.
pub open spec fn first_match(hay: Seq<char>, needle: Seq<char>) -> Option<int> {
    first_match_from(hay, needle, 0)
}

/// The number of positions below `upto` where `needle` occurs in `hay`.
pub open spec fn count_matches_upto(hay: Seq<char>, needle: Seq<char>, upto: int) -> nat
    decreases upto,
{
    if upto <= 0 {
        0
    } else {
        count_matches_upto(hay, needle, upto - 1) + if matches_at(hay, needle, upto - 1) {
            1nat
        } else {
            0nat
        }
    }
}

/// The number of positions where `needle` occurs in `hay`.
pub open spec fn count_matches(hay: Seq<char>, needle: Seq<char>) -> nat {
    count_matches_upto(hay, needle, hay.len() as int)
}

/// The part of `s` between the positions `start` and `end`, both cut down to
/// the length of `s`; empty where `start` lies behind `end`.
pub open spec fn clip(s: Seq<char>, start: int, end: int) -> Seq<char> {
    if 0 <= start <= end {
        let hi = if end <= s.len() { end } else { s.len() as int };
        let lo = if start <= hi { start } else { hi };
        s.subrange(lo, hi)
    } else {
        Seq::empty()
    }
}

/// What `first_match_from` returns is a match, and the earliest one.
pub proof fn lemma_first_match_from(hay: Seq<char>, needle: Seq<char>, from: int)
    requires
        0 <= from,
    ensures
        match first_match_from(hay, needle, from) {
            Some(at) => {
                &&& from <= at
                &&& matches_at(hay, needle, at)
                &&& forall|j: int| from <= j < at ==> !matches_at(hay, needle, j)
            },
            None => forall|j: int| from <= j ==> !matches_at(hay, needle, j),
        },
    decreases hay.len() + 1 - from,
{
    if from + needle.len() > hay.len() {
    } else if matches_at(hay, needle, from) {
    } else {
        lemma_first_match_from(hay, needle, from + 1);
    }
}

/// A match found at `at` with none before it is the first match.
pub proof fn lemma_first_match_is(hay: Seq<char>, needle: Seq<char>, from: int, at: int)
    requires
        0 <= from <= at,
        matches_at(hay, needle, at),
        forall|j: int| from <= j < at ==> !matches_at(hay, needle, j),
    ensures
        first_match_from(hay, needle, from) == Some(at),
    decreases at - from,
{
    if from < at {
        lemma_first_match_is(hay, needle, from + 1, at);
    }
}

/// Where nothing matches from `from` on, there is no first match.
pub proof fn lemma_first_match_none(hay: Seq<char>, needle: Seq<char>, from: int)
    requires
        0 <= from,
        forall|j: int| from <= j ==> !matches_at(hay, needle, j),
    ensures
        first_match_from(hay, needle, from) is None,
    decreases hay.len() + 1 - from,
{
    if from + needle.len() <= hay.len() {
        lemma_first_match_none(hay, needle, from + 1);
    }
}

/// The characters of a string, in order.
pub fn chars_of(s: &str) -> (out: Vec<char>)
    ensures
        out@ == s@,
{
    let mut out: Vec<char> = Vec::new();
    for c in it: s.chars()
        invariant
            out@ == it.seq().take(it.index() as int),
            it.seq() == s@,
    {
        out.push(c);
        assert(out@ =~= it.seq().take(it.index() + 1));
    }
    assert(out@ =~= s@);
    out
}

/// Tells whether `needle` occurs in `hay` at position `at`.
pub fn starts_at(hay: &[char], needle: &[char], at: usize) -> (hit: bool)
    ensures
        hit == matches_at(hay@, needle@, at as int),
{
    if needle.len() > hay.len() || at > hay.len() - needle.len() {
        return false;
    }
    let mut k: usize = 0;
    while k < needle.len()
        invariant
            k <= needle.len(),
            at + needle.len() <= hay.len(),
            forall|j: int| 0 <= j < k ==> hay@[at + j] == needle@[j],
        decreases needle.len() - k,
    {
        if hay[at + k] != needle[k] {
            assert(hay@.subrange(at as int, at + needle@.len())[k as int] != needle@[k as int]);
            return false;
        }
        k += 1;
    }
    assert(hay@.subrange(at as int, at + needle@.len()) =~= needle@);
    true
}

/// The first position at or after `from` where `needle` occurs in `hay`.
pub fn find_from(hay: &[char], needle: &[char], from: usize) -> (found: Option<usize>)
    ensures
        match found {
            Some(at) => first_match_from(hay@, needle@, from as int) == Some(at as int),
            None => first_match_from(hay@, needle@, from as int) is None,
        },
{
    if needle.len() > hay.len() || from > hay.len() - needle.len() {
        proof {
            lemma_first_match_none(hay@, needle@, from as int);
        }
        return None;
    }
    let last = hay.len() - needle.len();
    let mut i: usize = from;
    loop
        invariant
            from <= i <= last,
            last + needle.len() == hay.len(),
            forall|j: int| from <= j < i ==> !matches_at(hay@, needle@, j),
        decreases last - i,
    {
        if starts_at(hay, needle, i) {
            proof {
                lemma_first_match_is(hay@, needle@, from as int, i as int);
            }
            return Some(i);
        }
        if i == last {
            proof {
                lemma_first_match_none(hay@, needle@, from as int);
            }
            return None;
        }
        i += 1;
    }
}

/// The first position where `needle` occurs in `hay`.
pub fn find(hay: &[char], needle: &[char]) -> (found: Option<usize>)
    ensures
        match found {
            Some(at) => first_match(hay@, needle@) == Some(at as int),
            None => first_match(hay@, needle@) is None,
        },
{
    find_from(hay, needle, 0)
}

/// The number of positions where `needle` occurs in `hay`.
pub fn count(hay: &[char], needle: &[char]) -> (n: usize)
    ensures
        n == count_matches(hay@, needle@),
        n <= hay@.len(),
{
    let mut n: usize = 0;
    let mut i: usize = 0;
    while i < hay.len()
        invariant
            i <= hay.len(),
            n <= i,
            n == count_matches_upto(hay@, needle@, i as int),
        decreases hay.len() - i,
    {
        if starts_at(hay, needle, i) {
            n += 1;
        }
        i += 1;
    }
    n
}

/// The characters of `full_str` from position `start` up to, not including,
/// position `end`. Positions beyond the end of the text are left out, and the
/// result is empty where `start` lies behind `end`.
pub fn get_substr(full_str: &str, start: usize, end: usize) -> (substr: String)
    ensures
        substr@ == clip(full_str@, start as int, end as int),
{
    if start > end {
        return String::new();
    }
    let n = full_str.unicode_len();
    let hi = if end <= n { end } else { n };
    let lo = if start <= hi { start } else { hi };
    full_str.substring_char(lo, hi).to_owned()
}

/// Tells whether two strings hold the same characters.
pub fn str_eq(a: &str, b: &str) -> (same: bool)
    ensures
        same == (a@ == b@),
{
    let x = chars_of(a);
    let y = chars_of(b);
    if x.len() != y.len() {
        return false;
    }
    let mut i: usize = 0;
    while i < x.len()
        invariant
            i <= x@.len(),
            x@.len() == y@.len(),
            x@ == a@,
            y@ == b@,
            forall|j: int| 0 <= j < i ==> x@[j] == y@[j],
        decreases x@.len() - i,
    {
        if x[i] != y[i] {
            return false;
        }
        i += 1;
    }
    assert(x@ =~= y@);
    true
}

} // verus!
