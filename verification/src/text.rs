//! Text primitives the matching rules are built from.
//!
//! Trimming and lower-casing are done by the standard library; the contracts
//! below name their results so that the rules can be stated over them. The
//! comparisons are made here, character by character.

use vstd::prelude::*;

verus! {

/// The text that [`str::trim`] returns for `s`: `s` without its leading and
/// trailing Unicode whitespace.
pub uninterp spec fn trimmed(s: Seq<char>) -> Seq<char>;

/// The text that [`str::to_lowercase`] returns for `s`: the Unicode lowercase
/// equivalent of `s`.
pub uninterp spec fn lowercase(s: Seq<char>) -> Seq<char>;

/// The form in which names and queries are compared: trimmed, then
/// lower-cased.
pub open spec fn normalize(s: Seq<char>) -> Seq<char> {
    lowercase(trimmed(s))
}

/// Calls [`str::trim`]. The result is the slice of `s` that std documents:
/// `s` with leading and trailing whitespace removed. Which characters are
/// whitespace is a matter of the Unicode tables; that the result is a part
/// of `s` is not.
#[verifier::external_body]
pub(crate) fn trim(s: &str) -> (out: &str)
    ensures
        out@ == trimmed(s@),
        contains_text(s@, out@),
{
    s.trim()
}

/// Calls [`str::to_lowercase`]. The result is the lowercase equivalent of `s`
/// as a new string.
#[verifier::external_body]
pub(crate) fn to_lowercase(s: &str) -> (out: String)
    ensures
        out@ == lowercase(s@),
{
    s.to_lowercase()
}

/// Trims and lower-cases `s`.
pub fn normalized(s: &str) -> (out: String)
    ensures
        out@ == normalize(s@),
{
    to_lowercase(trim(s))
}

/// Whether `hay` holds `needle` at position `at`.
pub open spec fn holds_at(hay: Seq<char>, needle: Seq<char>, at: int) -> bool {
    0 <= at <= hay.len() - needle.len() && hay.subrange(at, at + needle.len()) == needle
}

/// Whether `hay` ends with `suffix`.
pub open spec fn ends_with_text(hay: Seq<char>, suffix: Seq<char>) -> bool {
    holds_at(hay, suffix, hay.len() - suffix.len())
}

/// Whether `needle` occurs in `hay` as a run of consecutive characters.
pub open spec fn contains_text(hay: Seq<char>, needle: Seq<char>) -> bool {
    exists|at: int| #[trigger] holds_at(hay, needle, at)
}

/// The characters of a text, one by one.
pub fn chars_of(s: &str) -> (chars: Vec<char>)
    ensures
        chars@ == s@,
{
    let mut chars: Vec<char> = Vec::new();
    for c in it: s.chars()
        invariant
            it.seq() == s@,
            chars@ == s@.take(it.index() as int),
    {
        chars.push(c);
    }
    chars
}

/// Whether `hay` holds `needle` at position `at`.
pub fn found_at(hay: &Vec<char>, needle: &Vec<char>, at: usize) -> (found: bool)
    ensures
        found == holds_at(hay@, needle@, at as int),
{
    if needle.len() > hay.len() || at > hay.len() - needle.len() {
        return false;
    }
    let mut i: usize = 0;
    while i < needle.len()
        invariant
            i <= needle@.len(),
            at + needle@.len() <= hay@.len() <= usize::MAX,
            forall|k: int| 0 <= k < i ==> hay@[at + k] == needle@[k],
        decreases needle@.len() - i,
    {
        if hay[at + i] != needle[i] {
            return false;
        }
        i = i + 1;
    }
    assert(hay@.subrange(at as int, at + needle@.len()) =~= needle@);
    true
}

/// Whether `text` starts with `prefix`.
pub fn is_prefix(prefix: &Vec<char>, text: &Vec<char>) -> (found: bool)
    ensures
        found == prefix@.is_prefix_of(text@),
{
    found_at(text, prefix, 0)
}

/// Whether `text` ends with `suffix`.
pub fn is_suffix(suffix: &Vec<char>, text: &Vec<char>) -> (found: bool)
    ensures
        found == ends_with_text(text@, suffix@),
{
    if suffix.len() > text.len() {
        false
    } else {
        found_at(text, suffix, text.len() - suffix.len())
    }
}

/// Whether `needle` occurs in `hay`.
pub fn occurs_in(needle: &Vec<char>, hay: &Vec<char>) -> (found: bool)
    ensures
        found == contains_text(hay@, needle@),
{
    if needle.len() > hay.len() {
        return false;
    }
    let last = hay.len() - needle.len();
    let mut at: usize = 0;
    loop
        invariant
            last == hay@.len() - needle@.len(),
            at <= last,
            forall|k: int| 0 <= k < at ==> !holds_at(hay@, needle@, k),
        decreases last - at,
    {
        if found_at(hay, needle, at) {
            return true;
        }
        if at == last {
            return false;
        }
        at = at + 1;
    }
}

} // verus!
