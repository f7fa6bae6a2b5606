//! The one place where text is produced by the JSON serialiser.

use vstd::prelude::*;
use crate::text::texts;

verus! {

/// The compact JSON array that the serialiser writes for a list of strings.
pub uninterp spec fn json_of_strings(items: Seq<Seq<char>>) -> Seq<char>;

/// Calls `serde_json::to_string` on a list of strings. Trusted: the text that
/// comes back is determined by the strings alone. The serialiser writes to
/// memory and strings always serialise, so the error arm is never taken.
#[verifier::external_body]
pub(crate) fn strings_to_json(items: &Vec<String>) -> (json: String)
    ensures
        json@ == json_of_strings(texts(items@)),
{
    serde_json::to_string(items).unwrap_or_default()
}

} // verus!
