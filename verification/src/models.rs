//! The request and response records of the service.

use std::collections::HashMap;
use vstd::prelude::*;

verus! {

/// The analysis model used when a request names none.
pub const DEFAULT_MODEL: &'static str = "gemini-3-flash-preview";

/// The form in which scraped content is returned.
#[derive(Debug, Clone, Copy, PartialEq, Eq, Structural)]
pub enum OutputFormat {
    Markdown,
    Html,
}

/// An optional request to analyse the scraped content.
#[derive(Debug)]
pub struct AnalysisRequest {
    pub model: String,
    pub prompt: String,
    pub response_schema: serde_json::Value,
}

/// One scrape request.
#[derive(Debug)]
pub struct ScrapeRequest {
    pub url: String,
    pub output_format: OutputFormat,
    pub analysis_request: Option<AnalysisRequest>,
}

/// Title and Open Graph tags of a page.
#[derive(Debug, Clone)]
pub struct PageMetadata {
    pub title: String,
    pub og_tags: HashMap<String, String>,
}

/// What a successful scrape returns.
#[derive(Debug)]
pub struct ScrapeData {
    pub metadata: PageMetadata,
    pub content: String,
    pub analysis_result: Option<serde_json::Value>,
    pub analysis_error: Option<String>,
}

/// Code and message of a failure.
#[derive(Debug)]
pub struct ErrorDetail {
    pub code: String,
    pub message: String,
}

/// The envelope of every answer: either data or an error, never both.
#[derive(Debug)]
pub struct ScrapeResponse {
    pub success: bool,
    pub data: Option<ScrapeData>,
    pub error: Option<ErrorDetail>,
}

/// What the extraction script reports about a page.
#[derive(Debug)]
pub struct PageExtractResult {
    pub title: String,
    pub og_tags: HashMap<String, String>,
    pub body_html: String,
}

/// The output format of a request that names none.
pub fn default_output_format() -> (format: OutputFormat)
    ensures
        format == OutputFormat::Markdown,
{
    OutputFormat::Markdown
}

/// The model of an analysis request that names none.
pub fn default_model() -> (model: String)
    ensures
        model@ == DEFAULT_MODEL@,
{
    String::from_str(DEFAULT_MODEL)
}

impl ScrapeResponse {
    /// An envelope is well formed when it carries data exactly if it reports
    /// success, and an error exactly if it does not.
    pub open spec fn wf(&self) -> bool {
        &&& self.success <==> self.data is Some
        &&& self.success <==> self.error is None
    }

    /// The answer to a request that succeeded.
    pub fn success(data: ScrapeData) -> (response: ScrapeResponse)
        ensures
            response.success,
            response.data == Some(data),
            response.error is None,
            response.wf(),
    {
        ScrapeResponse { success: true, data: Some(data), error: None }
    }

    /// The answer to a request that failed with the given code and message.
    pub fn error(code: &str, message: &str) -> (response: ScrapeResponse)
        ensures
            !response.success,
            response.data is None,
            response.error matches Some(detail) && detail.code@ == code@ && detail.message@
                == message@,
            response.wf(),
    {
        ScrapeResponse {
            success: false,
            data: None,
            error: Some(
                ErrorDetail { code: String::from_str(code), message: String::from_str(message) },
            ),
        }
    }
}

} // verus!
