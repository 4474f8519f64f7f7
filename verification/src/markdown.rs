//! Conversion of body markup to Markdown.

use vstd::prelude::*;

verus! {

/// What `htmd::convert` returns for a markup text: the Markdown text, or the
/// message of the error it reports.
pub uninterp spec fn markdown_of(html: Seq<char>) -> Result<Seq<char>, Seq<char>>;

/// The characters of a conversion result.
pub open spec fn converted_text(converted: Result<String, String>) -> Result<
    Seq<char>,
    Seq<char>,
> {
    match converted {
        Ok(markdown) => Ok(markdown@),
        Err(message) => Err(message@),
    }
}

/// `htmd::convert`: converts HTML to Markdown with the crate's default
/// options. The result is a function of the markup alone; an error is handed
/// out as the message that `Display` prints for it.
#[verifier::external_body]
pub(crate) fn convert(html: &str) -> (converted: Result<String, String>)
    ensures
        converted_text(converted) == markdown_of(html@),
{
    match htmd::convert(html) {
        Ok(markdown) => Ok(markdown),
        Err(error) => Err(error.to_string()),
    }
}

} // verus!
