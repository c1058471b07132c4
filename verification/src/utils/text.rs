//! Questions about text that the standard library answers.

use vstd::prelude::*;

verus! {

/// Whether `part` stands in `text` at position `at`.
pub open spec fn occurs_at(text: Seq<char>, part: Seq<char>, at: int) -> bool {
    &&& 0 <= at
    &&& at + part.len() <= text.len()
    &&& text.subrange(at, at + part.len()) == part
}

/// Whether `part` stands somewhere in `text`.
pub open spec fn occurs_in(text: Seq<char>, part: Seq<char>) -> bool {
    exists|at: int| occurs_at(text, part, at)
}

/// `str::contains` with a string as the pattern. Trusted: it answers
/// whether the pattern is a part of the text.
#[verifier::external_body]
pub(crate) fn contains(text: &str, part: &str) -> (found: bool)
    ensures
        found == occurs_in(text@, part@),
{
    text.contains(part)
}

/// The lower-case form that `str::to_lowercase` gives a text.
pub uninterp spec fn lowercase(text: Seq<char>) -> Seq<char>;

/// `str::to_lowercase`. Trusted: the result depends on the text alone.
#[verifier::external_body]
pub(crate) fn to_lowercase(text: &str) -> (lower: String)
    ensures
        lower@ == lowercase(text@),
{
    text.to_lowercase()
}

/// `str::starts_with` with a string as the pattern. Trusted: it answers
/// whether the text begins with the pattern.
#[verifier::external_body]
pub(crate) fn starts_with(text: &str, start: &str) -> (found: bool)
    ensures
        found == start@.is_prefix_of(text@),
{
    text.starts_with(start)
}

/// Whether `text` falls into `before` and `after` at the first place where
/// `mark` stands in it.
pub open spec fn splits_at_first(
    text: Seq<char>,
    mark: Seq<char>,
    before: Seq<char>,
    after: Seq<char>,
) -> bool {
    &&& text == before + mark + after
    &&& forall|at: int| 0 <= at < before.len() ==> !occurs_at(text, mark, at)
}

/// `str::split_once` with a string as the delimiter. Trusted: where the
/// delimiter stands in the text, the parts before and after its first
/// occurrence come back, and nothing where it does not.
#[verifier::external_body]
pub(crate) fn split_once<'a>(text: &'a str, mark: &str) -> (parts: Option<(&'a str, &'a str)>)
    requires
        mark@.len() > 0,
    ensures
        parts.is_some() == occurs_in(text@, mark@),
        parts matches Some(pair) ==> splits_at_first(text@, mark@, pair.0@, pair.1@),
{
    text.split_once(mark)
}

} // verus!
