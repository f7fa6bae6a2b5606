//! Text predicates that the expression evaluator and the combiners share.

use vstd::prelude::*;

verus! {

/// Whether `pattern` occurs in `text` as a contiguous run of characters.
pub open spec fn occurs(text: Seq<char>, pattern: Seq<char>) -> bool {
    exists|at: int|
        0 <= at && at + pattern.len() <= text.len() && #[trigger] text.subrange(
            at,
            at + pattern.len(),
        ) == pattern
}

/// The views of a sequence of strings, one for one.
pub open spec fn texts(items: Seq<String>) -> Seq<Seq<char>> {
    Seq::new(items.len(), |i: int| items[i]@)
}

/// Whether some string of `items` reads exactly `wanted`.
pub open spec fn holds_text(items: Seq<String>, wanted: Seq<char>) -> bool {
    exists|i: int| 0 <= i < items.len() && (#[trigger] items[i])@ == wanted
}

/// Calls `str::contains` with a string pattern. Trusted: the standard library
/// documents that it returns `true` exactly when the pattern matches a
/// sub-slice of the text; an empty pattern matches everywhere.
#[verifier::external_body]
pub(crate) fn contains_text(text: &str, pattern: &str) -> (found: bool)
    ensures
        found == occurs(text@, pattern@),
{
    text.contains(pattern)
}

/// Whether two texts read the same, character by character.
pub fn same_text(left: &str, right: &str) -> (same: bool)
    ensures
        same == (left@ == right@),
{
    let a = left.to_owned();
    let b = right.to_owned();
    a == b
}

/// Whether some string of `items` reads exactly `wanted`.
pub fn includes_text(items: &Vec<String>, wanted: &str) -> (found: bool)
    ensures
        found == holds_text(items@, wanted@),
{
    let mut i: usize = 0;
    while i < items.len()
        invariant
            i <= items.len(),
            forall|j: int| 0 <= j < i ==> (#[trigger] items[j])@ != wanted@,
        decreases items.len() - i,
    {
        if same_text(items[i].as_str(), wanted) {
            return true;
        }
        i += 1;
    }
    false
}

/// `head`, then `middle`, then `tail`, in a fresh string.
pub fn join3(head: &str, middle: &str, tail: &str) -> (joined: String)
    ensures
        joined@ == head@ + middle@ + tail@,
{
    let mut joined = head.to_owned();
    joined = joined.concat(middle);
    joined = joined.concat(tail);
    joined
}

} // verus!
