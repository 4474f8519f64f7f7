//! The error taxonomy of the service, with the machine-readable code, the HTTP
//! status number and the human-readable message of every kind.

use crate::models::ScrapeResponse;
use vstd::prelude::*;

verus! {

/// Every way a request can fail.
#[derive(Debug)]
pub enum AppError {
    /// The overall time budget of a scrape ran out.
    Timeout(String),
    /// The browser refused or failed a step.
    Browser(String),
    /// The API key was missing or wrong.
    Unauthorized,
    /// Analysis was asked for, but no provider key is configured.
    GeminiKeyNotConfigured,
    /// The analysis provider failed or answered with something unusable.
    LlmProvider(String),
    /// The request itself is not acceptable.
    InvalidRequest(String),
    /// A failure inside the service that is not the browser's.
    Internal(String),
}

pub type AppResult<T> = Result<T, AppError>;

/// An error as its kind and the characters of its detail.
pub enum ErrorModel {
    Timeout(Seq<char>),
    Browser(Seq<char>),
    Unauthorized,
    GeminiKeyNotConfigured,
    LlmProvider(Seq<char>),
    InvalidRequest(Seq<char>),
    Internal(Seq<char>),
}

impl View for AppError {
    type V = ErrorModel;

    open spec fn view(&self) -> ErrorModel {
        match self {
            AppError::Timeout(detail) => ErrorModel::Timeout(detail@),
            AppError::Browser(detail) => ErrorModel::Browser(detail@),
            AppError::Unauthorized => ErrorModel::Unauthorized,
            AppError::GeminiKeyNotConfigured => ErrorModel::GeminiKeyNotConfigured,
            AppError::LlmProvider(detail) => ErrorModel::LlmProvider(detail@),
            AppError::InvalidRequest(detail) => ErrorModel::InvalidRequest(detail@),
            AppError::Internal(detail) => ErrorModel::Internal(detail@),
        }
    }
}

impl AppError {
    /// The machine-readable code of this error, as characters.
    pub open spec fn code_text(&self) -> Seq<char> {
        match self {
            AppError::Timeout(_) => "TIMEOUT_EXCEEDED"@,
            AppError::Browser(_) => "BROWSER_ERROR"@,
            AppError::Unauthorized => "UNAUTHORIZED"@,
            AppError::GeminiKeyNotConfigured => "GEMINI_KEY_NOT_CONFIGURED"@,
            AppError::LlmProvider(_) => "LLM_PROVIDER_ERROR"@,
            AppError::InvalidRequest(_) => "INVALID_REQUEST"@,
            AppError::Internal(_) => "INTERNAL_ERROR"@,
        }
    }

    /// The HTTP status number that answers this error.
    pub open spec fn status_number(&self) -> int {
        match self {
            AppError::Timeout(_) => 408,
            AppError::Browser(_) => 500,
            AppError::Unauthorized => 401,
            AppError::GeminiKeyNotConfigured => 503,
            AppError::LlmProvider(_) => 502,
            AppError::InvalidRequest(_) => 400,
            AppError::Internal(_) => 500,
        }
    }

    /// The human-readable message of this error, as characters: a fixed
    /// prefix for the kind, followed by the detail where the kind carries one.
    pub open spec fn message(&self) -> Seq<char> {
        match self {
            AppError::Timeout(detail) => "Timeout exceeded: "@ + detail@,
            AppError::Browser(detail) => "Browser error: "@ + detail@,
            AppError::Unauthorized => "Unauthorized: Invalid or missing API key"@,
            AppError::GeminiKeyNotConfigured => "Gemini API key not configured"@,
            AppError::LlmProvider(detail) => "LLM provider error: "@ + detail@,
            AppError::InvalidRequest(detail) => "Invalid request: "@ + detail@,
            AppError::Internal(detail) => "Internal error: "@ + detail@,
        }
    }

    /// The machine-readable code of this error.
    pub fn code(&self) -> (code: &'static str)
        ensures
            code@ == self.code_text(),
    {
        match self {
            AppError::Timeout(_) => "TIMEOUT_EXCEEDED",
            AppError::Browser(_) => "BROWSER_ERROR",
            AppError::Unauthorized => "UNAUTHORIZED",
            AppError::GeminiKeyNotConfigured => "GEMINI_KEY_NOT_CONFIGURED",
            AppError::LlmProvider(_) => "LLM_PROVIDER_ERROR",
            AppError::InvalidRequest(_) => "INVALID_REQUEST",
            AppError::Internal(_) => "INTERNAL_ERROR",
        }
    }

    /// The HTTP status number that answers this error.
    pub fn status_code(&self) -> (status: u16)
        ensures
            status == self.status_number(),
    {
        match self {
            AppError::Timeout(_) => 408,
            AppError::Browser(_) => 500,
            AppError::Unauthorized => 401,
            AppError::GeminiKeyNotConfigured => 503,
            AppError::LlmProvider(_) => 502,
            AppError::InvalidRequest(_) => 400,
            AppError::Internal(_) => 500,
        }
    }

    /// The answer that reports this error: the HTTP status number, and an
    /// envelope with the error's code and message.
    pub fn into_response(self) -> (answer: (u16, ScrapeResponse))
        ensures
            answer.0 == self.status_number(),
            !answer.1.success,
            answer.1.data is None,
            answer.1.error matches Some(detail) && detail.code@ == self.code_text()
                && detail.message@ == self.message(),
            answer.1.wf(),
    {
        let status = self.status_code();
        let message = self.to_string();
        let response = ScrapeResponse::error(self.code(), message.as_str());
        (status, response)
    }

    /// The message of this error as an owned string.
    pub fn to_string(&self) -> (text: String)
        ensures
            text@ == self.message(),
    {
        match self {
            AppError::Timeout(detail) => String::from_str("Timeout exceeded: ").concat(
                detail.as_str(),
            ),
            AppError::Browser(detail) => String::from_str("Browser error: ").concat(
                detail.as_str(),
            ),
            AppError::Unauthorized => String::from_str("Unauthorized: Invalid or missing API key"),
            AppError::GeminiKeyNotConfigured => String::from_str("Gemini API key not configured"),
            AppError::LlmProvider(detail) => String::from_str("LLM provider error: ").concat(
                detail.as_str(),
            ),
            AppError::InvalidRequest(detail) => String::from_str("Invalid request: ").concat(
                detail.as_str(),
            ),
            AppError::Internal(detail) => String::from_str("Internal error: ").concat(
                detail.as_str(),
            ),
        }
    }
}

} // verus!
