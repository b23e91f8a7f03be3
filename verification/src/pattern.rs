//! Regular expressions, compiled and run by the `regex` crate.
//!
//! Nothing here is proved: each contract says what the `regex` crate is
//! trusted to do. What a pattern means is left to that crate; the three
//! names below stand for its answers, which depend on the texts handed to it
//! and on nothing else.

use vstd::prelude::*;

verus! {

/// The error that `regex::Regex::new` gives for a pattern it cannot compile.
#[verifier::external_type_specification]
#[verifier::external_body]
pub struct ExRegexError(regex::Error);

/// Whether `regex::Regex::new` accepts `pattern`.
pub uninterp spec fn pattern_compiles(pattern: Seq<char>) -> bool;

/// Whether `regex::Regex::is_match` finds a match of `pattern` anywhere in
/// `text`.
pub uninterp spec fn pattern_matches(pattern: Seq<char>, text: Seq<char>) -> bool;

/// What `regex::Regex::replace_all` makes of `text`: every match of `pattern`
/// replaced by `rep`, in which `$1`, `$name` and the like stand for capture
/// groups.
pub uninterp spec fn pattern_replaced(pattern: Seq<char>, text: Seq<char>, rep: Seq<char>) -> Seq<
    char,
>;

/// Compiles `pattern` with `regex::Regex::new` and asks `Regex::is_match`
/// whether it matches anywhere in `text`. The call fails exactly when the
/// pattern does not compile.
#[verifier::external_body]
pub(crate) fn search(pattern: &str, text: &str) -> (r: Result<bool, regex::Error>)
    ensures
        r is Ok == pattern_compiles(pattern@),
        r matches Ok(found) ==> found == pattern_matches(pattern@, text@),
{
    match regex::Regex::new(pattern) {
        Ok(re) => Ok(re.is_match(text)),
        Err(e) => Err(e),
    }
}

/// Compiles `pattern` with `regex::Regex::new` and has `Regex::replace_all`
/// replace every match in `text` by `rep`. The call fails exactly when the
/// pattern does not compile.
#[verifier::external_body]
pub(crate) fn substitute(pattern: &str, text: &str, rep: &str) -> (r: Result<String, regex::Error>)
    ensures
        r is Ok == pattern_compiles(pattern@),
        r matches Ok(out) ==> out@ == pattern_replaced(pattern@, text@, rep@),
{
    match regex::Regex::new(pattern) {
        Ok(re) => Ok(re.replace_all(text, rep).into_owned()),
        Err(e) => Err(e),
    }
}

} // verus!
