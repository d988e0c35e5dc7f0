//! Case folding, substring search and blank detection on text.

use vstd::prelude::*;
use vstd::std_specs::iter::IteratorSpec;

verus! {

/// Whether a character counts as white space to `char::is_whitespace`.
pub uninterp spec fn whitespace(c: char) -> bool;

/// std's `char::is_whitespace` tells whether Unicode counts the character as
/// White_Space. The answer depends on the character alone and is known here
/// only by name.
pub assume_specification[ char::is_whitespace ](c: char) -> (b: bool)
    ensures
        b == whitespace(c),
;

/// Whether a text holds nothing but white space; the empty text does.
pub open spec fn all_whitespace(text: Seq<char>) -> bool {
    forall|i: int| 0 <= i < text.len() ==> whitespace(#[trigger] text[i])
}

/// Tells whether a text is empty or holds nothing but white space.
pub fn is_blank(text: &str) -> (blank: bool)
    ensures
        blank == all_whitespace(text@),
{
    let mut blank = true;
    let chars = text.chars();
    for c in it: chars
        invariant
            it.seq() == text@,
            blank == all_whitespace(text@.take(it.index() as int)),
    {
        let ghost seen = it.index() as int;
        if !c.is_whitespace() {
            blank = false;
        }
        assert(text@.take(seen + 1)[seen] == c);
    }
    assert(text@.take(text@.len() as int) == text@);
    blank
}

/// The lower-case form of a text as `str::to_lowercase` gives it.
pub uninterp spec fn lowercase(text: Seq<char>) -> Seq<char>;

/// std's `str::to_lowercase` gives the lower-case form of a text by the
/// Unicode rules. The result depends on the text alone and is known here
/// only by name.
pub assume_specification[ str::to_lowercase ](text: &str) -> (lower: String)
    ensures
        lower@ == lowercase(text@),
;

/// Whether `needle` stands in `hay` at position `at`.
pub open spec fn occurs_at(needle: Seq<char>, hay: Seq<char>, at: int) -> bool {
    0 <= at && at + needle.len() <= hay.len() && hay.subrange(at, at + needle.len()) == needle
}

/// Whether `needle` stands somewhere in `hay`; the empty text stands in every text.
pub open spec fn is_substring(needle: Seq<char>, hay: Seq<char>) -> bool {
    exists|at: int| occurs_at(needle, hay, at)
}

/// Searches `hay` for `needle` with std's `str::contains`, which is true
/// exactly when the characters of `needle` stand in `hay` one after another.
#[verifier::external_body]
pub(crate) fn contains(hay: &str, needle: &str) -> (found: bool)
    ensures
        found == is_substring(needle@, hay@),
{
    hay.contains(needle)
}

/// std's `==` on string slices compares them byte by byte, and two texts
/// have the same bytes exactly when they have the same characters.
pub assume_specification[ <str as PartialEq>::eq ](a: &str, b: &str) -> (same: bool)
    ensures
        same == (a@ == b@),
;

/// Tells whether two texts hold the same characters.
pub fn same_text(a: &str, b: &str) -> (same: bool)
    ensures
        same == (a@ == b@),
{
    a.eq(b)
}

} // verus!
