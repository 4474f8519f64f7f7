//! The address of a page to scrape, as the URL parser reads it.

use vstd::prelude::*;

verus! {

/// A parsed address as characters.
pub struct UrlParts {
    /// The whole address in its normal form.
    pub href: Seq<char>,
    /// The scheme, without the colon.
    pub scheme: Seq<char>,
    /// The host, if the address has one.
    pub host: Option<Seq<char>>,
}

/// A parsed address.
#[derive(Debug)]
pub struct ParsedUrl {
    href: String,
    scheme: String,
    host: Option<String>,
}

impl View for ParsedUrl {
    type V = UrlParts;

    closed spec fn view(&self) -> UrlParts {
        UrlParts {
            href: self.href@,
            scheme: self.scheme@,
            host: match self.host {
                Some(host) => Some(host@),
                None => None,
            },
        }
    }
}

impl ParsedUrl {
    /// The whole address in its normal form.
    pub fn as_str(&self) -> (href: &str)
        ensures
            href@ == self@.href,
    {
        self.href.as_str()
    }

    /// The scheme, without the colon.
    pub fn scheme(&self) -> (scheme: &str)
        ensures
            scheme@ == self@.scheme,
    {
        self.scheme.as_str()
    }

    /// The host, if the address has one.
    pub fn host_str(&self) -> (host: Option<&str>)
        ensures
            match host {
                Some(text) => self@.host == Some(text@),
                None => self@.host is None,
            },
    {
        match &self.host {
            Some(host) => Some(host.as_str()),
            None => None,
        }
    }
}

/// What `url::Url::parse` makes of a text: the serialization (`Url::as_str`),
/// the scheme (`Url::scheme`) and the host (`Url::host_str`) of the parsed
/// address, or the message of the parse error.
pub uninterp spec fn url_parts(input: Seq<char>) -> Result<UrlParts, Seq<char>>;

/// The characters of a parse result.
pub open spec fn parsed_view(parsed: Result<ParsedUrl, String>) -> Result<UrlParts, Seq<char>> {
    match parsed {
        Ok(url) => Ok(url@),
        Err(message) => Err(message@),
    }
}

/// `url::Url::parse`, followed by `Url::as_str`, `Url::scheme` and
/// `Url::host_str` on the parsed address: the three texts of an absolute URL,
/// or the message that `Display` prints for the parse error. The result is a
/// function of the input alone.
#[verifier::external_body]
pub(crate) fn parse_url(input: &str) -> (parsed: Result<ParsedUrl, String>)
    ensures
        parsed_view(parsed) == url_parts(input@),
{
    match url::Url::parse(input) {
        Ok(url) => Ok(
            ParsedUrl {
                href: url.as_str().to_string(),
                scheme: url.scheme().to_string(),
                host: url.host_str().map(str::to_string),
            },
        ),
        Err(error) => Err(error.to_string()),
    }
}

/// What `str::to_lowercase` returns for a text.
pub uninterp spec fn lowercase_of(text: Seq<char>) -> Seq<char>;

/// `str::to_lowercase`: the text with every character in lower case, by the
/// Unicode rules that the standard library follows.
#[verifier::external_body]
pub(crate) fn to_lowercase(text: &str) -> (lowered: String)
    ensures
        lowered@ == lowercase_of(text@),
{
    text.to_lowercase()
}

} // verus!
