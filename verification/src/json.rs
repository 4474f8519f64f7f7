//! JSON values as the service carries them. A JSON value is opaque here: the
//! library moves it from where it was parsed to where it is sent and never looks
//! inside.

use vstd::prelude::*;

verus! {

/// `serde_json::Value`, carried through as an opaque value.
#[verifier::external_type_specification]
#[verifier::external_body]
pub struct ExJsonValue(serde_json::Value);

/// `<serde_json::Value as Clone>::clone`, which the crate derives: the copy is
/// the same JSON value.
pub assume_specification[ <serde_json::Value as Clone>::clone ](value: &serde_json::Value) -> (copy:
    serde_json::Value)
    ensures
        copy == *value,
;

/// What `serde_json::from_str::<serde_json::Value>` reports for a text: `None`
/// where the text is one JSON value, else the message of the syntax error.
pub uninterp spec fn json_syntax_error(text: Seq<char>) -> Option<Seq<char>>;

/// `serde_json::from_str::<serde_json::Value>`: parses a text as one JSON value.
/// It succeeds exactly on the texts for which `json_syntax_error` is `None`, and
/// otherwise hands out the error's message as `Display` prints it.
#[verifier::external_body]
pub(crate) fn parse_json(text: &str) -> (parsed: Result<serde_json::Value, String>)
    ensures
        match parsed {
            Ok(_) => json_syntax_error(text@) is None,
            Err(message) => json_syntax_error(text@) == Some(message@),
        },
{
    match serde_json::from_str::<serde_json::Value>(text) {
        Ok(value) => Ok(value),
        Err(error) => Err(error.to_string()),
    }
}

} // verus!
