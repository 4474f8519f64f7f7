//! The decisions of the request layer: who may ask, which targets may be
//! scraped, and what the answer looks like.
//!
//! The handling of one request is a state machine like the scrape itself: it
//! names the step to perform next (scrape, analyse, answer), and whoever drives
//! it reports what came of the step.

use crate::address::{ipv4_of, parse_ipv4, private_address, private_v4, IpAddress};
use crate::browser::BrowserStats;
use crate::error::{AppError, AppResult, ErrorModel};
use crate::models::{
    AnalysisRequest, OutputFormat, PageMetadata, ScrapeData, ScrapeRequest, ScrapeResponse,
};
use crate::target::{
    lowercase_of, parse_url, parsed_view, to_lowercase, url_parts, ParsedUrl, UrlParts,
};
use crate::text::{ends_with, same_text, text_ends_with};
use vstd::prelude::*;
use vstd::string::StringSliceAdditionalSpecFns;

verus! {

/// The request header that carries the API key.
pub const API_KEY_HEADER: &'static str = "x-api-key";

/// `<[u8] as subtle::ConstantTimeEq>::ct_eq`, with the `Choice` it returns
/// turned into a `bool`: whether two byte strings are equal. Slices of
/// different lengths are unequal; slices of one length are compared byte by
/// byte, in time that does not depend on their contents.
#[verifier::external_body]
fn constant_time_eq(left: &[u8], right: &[u8]) -> (equal: bool)
    ensures
        equal == (left@ == right@),
{
    subtle::ConstantTimeEq::ct_eq(left, right).into()
}

/// Whether two strings are equal, found in time that depends on their
/// lengths only.
pub fn secure_compare(a: &str, b: &str) -> (equal: bool)
    ensures
        equal == (a@ == b@),
{
    proof {
        vstd::utf8::encode_utf8_decode_utf8(a@);
        vstd::utf8::encode_utf8_decode_utf8(b@);
    }
    constant_time_eq(a.as_bytes(), b.as_bytes())
}

/// Whether an address must not be scraped.
pub fn is_private_ip(ip: &IpAddress) -> (private: bool)
    ensures
        private == private_address(*ip),
{
    match ip {
        IpAddress::V4(octets) => {
            octets[0] == 127 || octets[0] == 10 || (octets[0] == 172 && octets[1] >= 16
                && octets[1] <= 31) || (octets[0] == 192 && octets[1] == 168) || (octets[0] == 169
                && octets[1] == 254) || (octets[0] == 255 && octets[1] == 255 && octets[2] == 255
                && octets[3] == 255) || (octets[0] == 0 && octets[1] == 0 && octets[2] == 0
                && octets[3] == 0)
        },
        IpAddress::V6(segments) => {
            segments[0] == 0 && segments[1] == 0 && segments[2] == 0 && segments[3] == 0
                && segments[4] == 0 && segments[5] == 0 && segments[6] == 0 && (segments[7] == 0
                || segments[7] == 1)
        },
    }
}

/// A host name that means this machine: `localhost` or a name below it.
pub open spec fn localhost_name(host: Seq<char>) -> bool {
    host == "localhost"@ || ends_with(host, ".localhost"@)
}

/// Whether a lower-cased host name means this machine.
pub fn is_localhost(host_lower: &str) -> (local: bool)
    ensures
        local == localhost_name(host_lower@),
{
    same_text(host_lower, "localhost") || text_ends_with(host_lower, ".localhost")
}

/// Whether a host name, in whatever case it is written, means this machine.
pub fn names_localhost(host: &str) -> (local: bool)
    ensures
        local == localhost_name(lowercase_of(host@)),
{
    is_localhost(to_lowercase(host).as_str())
}

/// A host that is the text of an IPv4 address which must not be scraped.
pub open spec fn names_private_address(host: Seq<char>) -> bool {
    ipv4_of(host) matches Some(octets) && private_v4(octets)
}

/// Whether a host is the text of an IPv4 address which must not be scraped.
fn host_is_private(host: &str) -> (private: bool)
    ensures
        private == names_private_address(host@),
{
    match parse_ipv4(host) {
        Some(octets) => is_private_ip(&IpAddress::V4(octets)),
        None => false,
    }
}

/// The error for a request that is not acceptable, with this message.
fn invalid_request(prefix: &str, detail: &str) -> (error: AppError)
    ensures
        error@ == ErrorModel::InvalidRequest(prefix@ + detail@),
{
    AppError::InvalidRequest(String::from_str(prefix).concat(detail))
}

/// The verdict on a target, given what parsing its address returned. Only
/// `http` and `https` addresses with a host are let through, and of those
/// none whose host is a private IPv4 address or means this machine. A host in
/// brackets is no address text, so an IPv6 host is let through.
pub open spec fn vetted(parsed: Result<UrlParts, Seq<char>>) -> Result<UrlParts, ErrorModel> {
    match parsed {
        Err(message) => Err(ErrorModel::InvalidRequest("Invalid URL: "@ + message)),
        Ok(parts) => if parts.scheme != "http"@ && parts.scheme != "https"@ {
            Err(ErrorModel::InvalidRequest("Invalid scheme: "@ + parts.scheme))
        } else {
            match parts.host {
                None => Err(ErrorModel::InvalidRequest("Missing host"@)),
                Some(host) => if names_private_address(host) {
                    Err(ErrorModel::InvalidRequest("Private IP not allowed"@))
                } else if localhost_name(lowercase_of(host)) {
                    Err(ErrorModel::InvalidRequest("Localhost not allowed"@))
                } else {
                    Ok(parts)
                },
            }
        },
    }
}

/// The characters of a verdict.
pub open spec fn verdict_view(verdict: AppResult<ParsedUrl>) -> Result<UrlParts, ErrorModel> {
    match verdict {
        Ok(url) => Ok(url@),
        Err(error) => Err(error@),
    }
}

/// The verdict on a target, given what parsing its address returned.
pub fn vet_target(parsed: Result<ParsedUrl, String>) -> (verdict: AppResult<ParsedUrl>)
    ensures
        verdict_view(verdict) == vetted(parsed_view(parsed)),
{
    let url = match parsed {
        Ok(url) => url,
        Err(message) => {
            return Err(invalid_request("Invalid URL: ", message.as_str()));
        },
    };
    if !same_text(url.scheme(), "http") && !same_text(url.scheme(), "https") {
        return Err(invalid_request("Invalid scheme: ", url.scheme()));
    }
    let blocked = match url.host_str() {
        None => {
            return Err(AppError::InvalidRequest(String::from_str("Missing host")));
        },
        Some(host) => {
            if host_is_private(host) {
                Some("Private IP not allowed")
            } else if names_localhost(host) {
                Some("Localhost not allowed")
            } else {
                None
            }
        },
    };
    match blocked {
        Some(reason) => Err(AppError::InvalidRequest(String::from_str(reason))),
        None => Ok(url),
    }
}

/// Parses the address of a target and decides whether it may be scraped.
pub fn validate_url(url_str: &str) -> (verdict: AppResult<ParsedUrl>)
    ensures
        verdict_view(verdict) == vetted(url_parts(url_str@)),
{
    vet_target(parse_url(url_str))
}

/// The key that a request is taken to carry: the one it provides, or the
/// empty key where it provides none.
pub open spec fn presented_key(provided_key: Option<&str>) -> Seq<char> {
    match provided_key {
        Some(key) => key@,
        None => Seq::empty(),
    }
}

/// Lets a request through exactly if the key it provides is the configured
/// one. A request without a key counts as providing the empty key.
pub fn authorize(provided_key: Option<&str>, api_key: &str) -> (verdict: AppResult<()>)
    ensures
        verdict is Ok <==> presented_key(provided_key) == api_key@,
        verdict matches Err(error) ==> error@ == ErrorModel::Unauthorized,
{
    let presented = match provided_key {
        Some(key) => key,
        None => "",
    };
    proof {
        reveal_strlit("");
        assert(""@ =~= Seq::<char>::empty());
    }
    if secure_compare(presented, api_key) {
        Ok(())
    } else {
        Err(AppError::Unauthorized)
    }
}

/// Decides whether a request is served: it must carry the configured key,
/// and its target must pass `validate_url`. The key is looked at first, so a
/// request without it learns nothing about its target.
pub fn accept_request(provided_key: Option<&str>, api_key: &str, request: &ScrapeRequest) -> (verdict:
    AppResult<ParsedUrl>)
    ensures
        verdict_view(verdict) == if presented_key(provided_key) == api_key@ {
            vetted(url_parts(request.url@))
        } else {
            Err(ErrorModel::Unauthorized)
        },
{
    match authorize(provided_key, api_key) {
        Err(error) => Err(error),
        Ok(()) => validate_url(request.url.as_str()),
    }
}

/// What the analysis of scraped content contributes to the answer: its
/// result, or the message of its failure, or nothing where none was asked for.
pub fn analysis_fields(analysis: Option<AppResult<serde_json::Value>>) -> (fields: (
    Option<serde_json::Value>,
    Option<String>,
))
    ensures
        match analysis {
            None => fields.0 is None && fields.1 is None,
            Some(Ok(value)) => fields.0 == Some(value) && fields.1 is None,
            Some(Err(error)) => {
                &&& fields.0 is None
                &&& fields.1 matches Some(message)
                &&& message@ == error.message()
            },
        },
{
    match analysis {
        None => (None, None),
        Some(Ok(value)) => (Some(value), None),
        Some(Err(error)) => (None, Some(error.to_string())),
    }
}

/// `response` is the answer to a scrape that succeeded with this metadata and
/// content, and to which the analysis contributed this.
pub open spec fn is_answer(
    response: ScrapeResponse,
    metadata: PageMetadata,
    content: String,
    analysis: Option<AppResult<serde_json::Value>>,
) -> bool {
    &&& response.success
    &&& response.error is None
    &&& response.wf()
    &&& response.data matches Some(data) && {
        &&& data.metadata == metadata
        &&& data.content == content
        &&& match analysis {
            None => data.analysis_result is None && data.analysis_error is None,
            Some(Ok(value)) => data.analysis_result == Some(value) && data.analysis_error is None,
            Some(Err(error)) => {
                &&& data.analysis_result is None
                &&& data.analysis_error matches Some(message)
                &&& message@ == error.message()
            },
        }
    }
}

/// The answer to a scrape that succeeded. A failed analysis does not fail the
/// request: its message travels beside the content.
pub fn scrape_response(
    metadata: PageMetadata,
    content: String,
    analysis: Option<AppResult<serde_json::Value>>,
) -> (response: ScrapeResponse)
    ensures
        is_answer(response, metadata, content, analysis),
{
    let (analysis_result, analysis_error) = analysis_fields(analysis);
    ScrapeResponse::success(ScrapeData { metadata, content, analysis_result, analysis_error })
}

/// Where the handling of a scrape request stands.
#[derive(Debug)]
pub enum HandlerState {
    /// The page is being scraped; the analysis, if one was asked for, is
    /// still to come.
    Scraping { analysis_request: Option<AnalysisRequest> },
    /// The page was scraped and its content is being analysed.
    Analyzing { metadata: PageMetadata, content: String },
    /// The request was answered.
    Done,
}

/// What happened to the step that was asked for.
#[derive(Debug)]
pub enum HandlerEvent {
    /// The scrape ended.
    Scraped(AppResult<(PageMetadata, String)>),
    /// The analysis ended.
    Analyzed(AppResult<serde_json::Value>),
}

/// What to do next for a scrape request.
#[derive(Debug)]
pub enum HandlerAction {
    /// Scrape this address in this form and report with `Scraped`.
    Scrape { url: ParsedUrl, output_format: OutputFormat },
    /// Analyse this content as asked and report with `Analyzed`.
    Analyze { content: String, request: AnalysisRequest },
    /// Answer the request with this.
    Respond(AppResult<ScrapeResponse>),
    /// The event answers no pending step: carry on as before.
    Ignored,
}

/// The handling of one scrape request.
#[derive(Debug)]
pub struct ScrapeHandler {
    state: HandlerState,
}

impl View for ScrapeHandler {
    type V = HandlerState;

    closed spec fn view(&self) -> HandlerState {
        self.state
    }
}

/// How the handling of a request begins: an unauthorized or unacceptable
/// request is answered with its error at once; any other is scraped.
pub open spec fn begun(
    api_key: &str,
    provided_key: Option<&str>,
    request: ScrapeRequest,
    state: HandlerState,
    action: HandlerAction,
) -> bool {
    if presented_key(provided_key) != api_key@ {
        &&& state is Done
        &&& action matches HandlerAction::Respond(Err(error))
        &&& error@ == ErrorModel::Unauthorized
    } else {
        match vetted(url_parts(request.url@)) {
            Err(model) => {
                &&& state is Done
                &&& action matches HandlerAction::Respond(Err(error))
                &&& error@ == model
            },
            Ok(parts) => {
                &&& state == (HandlerState::Scraping { analysis_request: request.analysis_request })
                &&& action matches HandlerAction::Scrape { url, output_format }
                &&& url@ == parts
                &&& output_format == request.output_format
            },
        }
    }
}

/// How the handling of a request goes on. A failed scrape is answered with
/// its error. A scrape that succeeded is answered at once where no analysis was
/// asked for, else after the analysis, whose failure does not fail the request.
pub open spec fn handled(
    before: HandlerState,
    event: HandlerEvent,
    after: HandlerState,
    action: HandlerAction,
) -> bool {
    match (before, event) {
        (HandlerState::Scraping { analysis_request }, HandlerEvent::Scraped(Err(error))) => {
            &&& after is Done
            &&& action == HandlerAction::Respond(Err(error))
        },
        (
            HandlerState::Scraping { analysis_request: None },
            HandlerEvent::Scraped(Ok((metadata, content))),
        ) => {
            &&& after is Done
            &&& action matches HandlerAction::Respond(Ok(response))
            &&& is_answer(response, metadata, content, None)
        },
        (
            HandlerState::Scraping { analysis_request: Some(wanted) },
            HandlerEvent::Scraped(Ok((metadata, content))),
        ) => {
            &&& after == (HandlerState::Analyzing { metadata, content })
            &&& action == (HandlerAction::Analyze { content, request: wanted })
        },
        (HandlerState::Analyzing { metadata, content }, HandlerEvent::Analyzed(outcome)) => {
            &&& after is Done
            &&& action matches HandlerAction::Respond(Ok(response))
            &&& is_answer(response, metadata, content, Some(outcome))
        },
        _ => after == before && action is Ignored,
    }
}

/// A request is answered once: after its answer every event is ignored and
/// nothing changes. Before that, every event that is taken in either answers
/// the request or asks for the analysis of what was scraped.
pub proof fn lemma_request_is_answered_once(
    before: HandlerState,
    event: HandlerEvent,
    after: HandlerState,
    action: HandlerAction,
)
    requires
        handled(before, event, after, action),
    ensures
        before is Done ==> after is Done && action is Ignored,
        action is Respond ==> after is Done && !(before is Done),
        action is Analyze ==> before is Scraping && after is Analyzing,
        !(action is Scrape),
{
}

/// An analysis that fails does not fail the request: the answer reports
/// success, carries the scraped content, and the message of the failure beside
/// it.
pub proof fn lemma_failed_analysis_keeps_content(
    metadata: PageMetadata,
    content: String,
    failure: AppError,
    after: HandlerState,
    action: HandlerAction,
)
    requires
        handled(
            HandlerState::Analyzing { metadata, content },
            HandlerEvent::Analyzed(Err(failure)),
            after,
            action,
        ),
    ensures
        action matches HandlerAction::Respond(Ok(response)) && response.success && (
        response.data matches Some(data) && data.content == content && data.analysis_result is None
            && (data.analysis_error matches Some(message) && message@ == failure.message())),
{
}

/// Begins the handling of a scrape request: the key is checked, then the
/// target, and a request that passes both is scraped.
pub fn scrape_handler(api_key: &str, provided_key: Option<&str>, request: ScrapeRequest) -> (begin: (
    ScrapeHandler,
    HandlerAction,
))
    ensures
        begun(api_key, provided_key, request, begin.0@, begin.1),
{
    match accept_request(provided_key, api_key, &request) {
        Err(error) => (
            ScrapeHandler { state: HandlerState::Done },
            HandlerAction::Respond(Err(error)),
        ),
        Ok(url) => {
            let ScrapeRequest { url: _, output_format, analysis_request } = request;
            (
                ScrapeHandler { state: HandlerState::Scraping { analysis_request } },
                HandlerAction::Scrape { url, output_format },
            )
        },
    }
}

impl ScrapeHandler {
    /// Whether the request was answered.
    pub fn is_done(&self) -> (done: bool)
        ensures
            done == self@ is Done,
    {
        match self.state {
            HandlerState::Done => true,
            _ => false,
        }
    }

    /// Takes in what happened and says what to do next.
    pub fn advance(&mut self, event: HandlerEvent) -> (action: HandlerAction)
        ensures
            handled(old(self)@, event, final(self)@, action),
    {
        let mut state = HandlerState::Done;
        std::mem::swap(&mut self.state, &mut state);
        match (state, event) {
            (HandlerState::Scraping { analysis_request }, HandlerEvent::Scraped(Err(error))) => {
                HandlerAction::Respond(Err(error))
            },
            (
                HandlerState::Scraping { analysis_request: None },
                HandlerEvent::Scraped(Ok((metadata, content))),
            ) => HandlerAction::Respond(Ok(scrape_response(metadata, content, None))),
            (
                HandlerState::Scraping { analysis_request: Some(wanted) },
                HandlerEvent::Scraped(Ok((metadata, content))),
            ) => {
                let copy = content.clone();
                self.state = HandlerState::Analyzing { metadata, content };
                HandlerAction::Analyze { content: copy, request: wanted }
            },
            (HandlerState::Analyzing { metadata, content }, HandlerEvent::Analyzed(outcome)) => {
                HandlerAction::Respond(Ok(scrape_response(metadata, content, Some(outcome))))
            },
            (unchanged, _) => {
                self.state = unchanged;
                HandlerAction::Ignored
            },
        }
    }
}

/// The health report of the service.
#[derive(Debug)]
pub struct HealthReport {
    pub status: &'static str,
    pub browser: BrowserStats,
}

/// The health report for a snapshot of the pool. The service reports itself
/// healthy whenever it answers.
pub fn health_handler(stats: BrowserStats) -> (report: HealthReport)
    ensures
        report.status@ == "healthy"@,
        report.browser == stats,
{
    HealthReport { status: "healthy", browser: stats }
}

} // verus!
