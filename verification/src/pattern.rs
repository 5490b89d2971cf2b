//! Searching a text for a regular expression.

use vstd::prelude::*;

verus! {

/// The form of a measurement unit: word characters, a slash, word
/// characters.
pub const UNITS_REGEX_STR: &'static str = r"\w+/\w+";

/// Whether the regular expression `pattern` matches anywhere in `text`, or
/// `None` where `pattern` is no regular expression that can be compiled.
pub uninterp spec fn regex_found(pattern: Seq<char>, text: Seq<char>) -> Option<bool>;

/// Compiles `pattern` with `regex::Regex::new` and searches `text` with
/// `Regex::find`. Both depend on their arguments alone, so the outcome is
/// the one that `regex_found` names: `None` where the pattern is refused,
/// else whether a match was found. Nothing is claimed of which texts match.
#[verifier::external_body]
pub(crate) fn find_pattern(pattern: &str, text: &str) -> (found: Option<bool>)
    ensures
        found == regex_found(pattern@, text@),
{
    match ::regex::Regex::new(pattern) {
        Ok(compiled) => Some(compiled.find(text).is_some()),
        Err(_) => None,
    }
}

} // verus!
