//! Lists of texts as JSON, written by the `serde_json` crate.
//!
//! The wrapper here is not proved: its contract says what the `serde_json`
//! crate is trusted to do. How a text is quoted and escaped is left to that
//! crate; the name below stands for its answer, which depends on the texts
//! handed to it and on nothing else.

use vstd::prelude::*;

verus! {

/// The error that `serde_json::to_string` gives for a value it cannot write.
#[verifier::external_type_specification]
#[verifier::external_body]
pub struct ExJsonError(serde_json::Error);

/// What `serde_json::to_string` writes for a list of the texts `items`: a
/// JSON array of JSON strings.
pub uninterp spec fn json_list_text(items: Seq<Seq<char>>) -> Seq<char>;

/// What each string of `items` holds.
pub open spec fn string_views(items: Seq<String>) -> Seq<Seq<char>> {
    items.map_values(|s: String| s@)
}

/// Why a list was not written as JSON.
#[derive(Debug, Clone, Copy, PartialEq, Eq, Structural)]
pub enum JsonError {
    /// The `serde_json` crate refused the list.
    NotWritten,
}

impl JsonError {
    /// The error in words.
    pub fn message(&self) -> (text: &'static str)
        ensures
            text@ == "the list cannot be written as JSON"@,
    {
        "the list cannot be written as JSON"
    }
}

/// Has `serde_json::to_string` write `items` as JSON. Where it succeeds, the
/// text is the one that the crate writes for these items.
#[verifier::external_body]
pub(crate) fn to_json_list(items: &Vec<String>) -> (r: Result<String, serde_json::Error>)
    ensures
        r matches Ok(text) ==> text@ == json_list_text(string_views(items@)),
{
    serde_json::to_string(items)
}

/// The list `items` as JSON, as the configuration files of the IDEs hold
/// their lists.
pub fn json_list(items: &Vec<String>) -> (r: Result<String, JsonError>)
    ensures
        match r {
            Ok(text) => text@ == json_list_text(string_views(items@)),
            Err(e) => e == JsonError::NotWritten,
        },
{
    match to_json_list(items) {
        Ok(text) => Ok(text),
        Err(_) => Err(JsonError::NotWritten),
    }
}

} // verus!
