//! Character-level helpers shared by the template engine and the parsers.
//!
//! Strings are modelled by their sequence of characters. The executable
//! helpers work on a `Vec<char>` taken once from the input, so that scanning
//! is constant time per character.

use vstd::prelude::*;
use vstd::string::StringExecFns;

verus! {

/// Position of the first `c` in `s` at or after `from`; `s.len()` when there
/// is none.
pub open spec fn find_char(s: Seq<char>, c: char, from: int) -> int
    decreases s.len() - from,
{
    if from < 0 || from >= s.len() {
        s.len() as int
    } else if s[from] == c {
        from
    } else {
        find_char(s, c, from + 1)
    }
}

/// `prefix` stands in `s` at position `at`.
pub open spec fn occurs_at(s: Seq<char>, prefix: Seq<char>, at: int) -> bool {
    &&& 0 <= at
    &&& at + prefix.len() <= s.len()
    &&& s.subrange(at, at + prefix.len()) == prefix
}

/// `s` begins with `prefix`.
pub open spec fn starts_with(s: Seq<char>, prefix: Seq<char>) -> bool {
    occurs_at(s, prefix, 0)
}

/// A position `p` with no `c` between `from` and `p` that holds a `c`, or is
/// the end, is the one `find_char` returns.
pub proof fn lemma_find_char_unique(s: Seq<char>, c: char, from: int, p: int)
    requires
        0 <= from <= p <= s.len(),
        forall|k: int| from <= k < p ==> s[k] != c,
        p < s.len() ==> s[p] == c,
    ensures
        find_char(s, c, from) == p,
    decreases p - from,
{
    if from < p {
        lemma_find_char_unique(s, c, from + 1, p);
    }
}

/// The characters of `s`, in order.
pub(crate) fn to_chars(s: &str) -> (chars: Vec<char>)
    ensures
        chars@ == s@,
{
    let mut chars: Vec<char> = Vec::new();
    for c in it: s.chars()
        invariant
            chars@ == it.seq().take(it.index() as int),
    {
        chars.push(c);
    }
    chars
}

/// Finds the first `c` at or after `from`.
pub(crate) fn find_char_from(chars: &Vec<char>, c: char, from: usize) -> (pos: usize)
    requires
        from <= chars.len(),
    ensures
        pos == find_char(chars@, c, from as int),
        from <= pos <= chars.len(),
{
    let mut pos: usize = from;
    while pos < chars.len() && chars[pos] != c
        invariant
            from <= pos <= chars.len(),
            forall|k: int| from <= k < pos ==> chars@[k] != c,
        decreases chars.len() - pos,
    {
        pos = pos + 1;
    }
    proof {
        lemma_find_char_unique(chars@, c, from as int, pos as int);
    }
    pos
}

/// Tells whether `prefix` stands in `chars` at position `at`.
pub(crate) fn occurs_at_exec(chars: &Vec<char>, prefix: &Vec<char>, at: usize) -> (found: bool)
    ensures
        found == occurs_at(chars@, prefix@, at as int),
{
    if at > chars.len() || prefix.len() > chars.len() - at {
        return false;
    }
    let mut k: usize = 0;
    while k < prefix.len()
        invariant
            at + prefix.len() <= chars.len(),
            k <= prefix.len(),
            forall|j: int| 0 <= j < k ==> chars@[at + j] == prefix@[j],
        decreases prefix.len() - k,
    {
        if chars[at + k] != prefix[k] {
            proof {
                let window = chars@.subrange(at as int, at + prefix.len());
                assert(window[k as int] == chars@[at + k]);
            }
            return false;
        }
        k = k + 1;
    }
    assert(chars@.subrange(at as int, at + prefix.len()) =~= prefix@);
    true
}

/// Tells whether two texts hold the same characters.
pub fn same_text(a: &str, b: &str) -> (same: bool)
    ensures
        same == (a@ == b@),
{
    String::from_str(a) == String::from_str(b)
}

/// A fresh `String` holding the characters of `s` from `from` up to `to`.
pub(crate) fn slice_to_string(s: &str, from: usize, to: usize) -> (out: String)
    requires
        from <= to <= s@.len(),
    ensures
        out@ == s@.subrange(from as int, to as int),
{
    String::from_str(s.substring_char(from, to))
}

} // verus!
