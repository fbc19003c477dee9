//! JSON text read by `serde_json`.

use vstd::prelude::*;
use crate::friends::strings_view;

verus! {

/// The strings of a JSON array of strings, as `serde_json` reads them, or
/// `None` where the text is no such array.
pub uninterp spec fn json_string_list(text: Seq<char>) -> Option<Seq<Seq<char>>>;

/// `serde_json::Error`: why a text was refused.
#[verifier::external_type_specification]
#[verifier::external_body]
pub struct ExJsonError(serde_json::Error);

/// Calls `serde_json::from_str` for a list of strings.
#[verifier::external_body]
pub(crate) fn parse_string_list(text: &str) -> (parsed: Result<Vec<String>, serde_json::Error>)
    ensures
        parsed is Ok <==> json_string_list(text@) is Some,
        parsed matches Ok(list) ==> json_string_list(text@) == Some(strings_view(list@)),
{
    serde_json::from_str::<Vec<String>>(text)
}

} // verus!
