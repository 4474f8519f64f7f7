//! The content-analysis call: what is sent to the provider and what its answer
//! means. The client decides; whoever drives it performs the HTTP exchange and
//! decodes the provider's JSON.

use crate::error::{AppError, AppResult, ErrorModel};
use crate::json::{json_syntax_error, parse_json};
use crate::models::AnalysisRequest;
use vstd::prelude::*;

verus! {

/// Where the provider's models live.
pub const GEMINI_API_BASE: &'static str =
    "https://generativelanguage.googleapis.com/v1beta/models";

/// How long one analysis call may take, in seconds.
pub const LLM_TIMEOUT_SECS: u64 = 60;

/// How long the connection to the provider may take, in seconds.
pub const LLM_CONNECT_TIMEOUT_SECS: u64 = 10;

/// The media type that the provider is asked to answer in.
pub const RESPONSE_MIME_TYPE: &'static str = "application/json";

/// One part of a message to the provider.
#[derive(Debug)]
pub struct RequestPart {
    pub text: String,
}

/// One message to the provider.
#[derive(Debug)]
pub struct RequestContent {
    pub parts: Vec<RequestPart>,
}

/// How the provider is to shape its answer.
#[derive(Debug)]
pub struct GenerationConfig {
    pub response_mime_type: String,
    pub response_schema: serde_json::Value,
}

/// The body of an analysis call.
#[derive(Debug)]
pub struct GeminiPayload {
    pub contents: Vec<RequestContent>,
    pub generation_config: GenerationConfig,
}

/// An analysis call that is ready to be sent.
#[derive(Debug)]
pub struct GeminiCall {
    pub endpoint: String,
    pub payload: GeminiPayload,
}

/// One part of the provider's answer.
#[derive(Debug)]
pub struct Part {
    pub text: String,
}

/// The content of one candidate answer.
#[derive(Debug)]
pub struct Content {
    pub parts: Vec<Part>,
}

/// One candidate answer.
#[derive(Debug)]
pub struct Candidate {
    pub content: Content,
}

/// The provider's answer.
#[derive(Debug)]
pub struct GeminiResponse {
    pub candidates: Vec<Candidate>,
}

/// What came of sending an analysis call.
#[derive(Debug)]
pub enum GeminiReply {
    /// The call could not be sent, with this message.
    SendFailed(String),
    /// The answer could not be read, with this message.
    ReadFailed(String),
    /// The provider answered with this status number, this status line and
    /// this body.
    Answer { status_code: u16, status: String, body: String },
}

/// What to do with the provider's reply.
#[derive(Debug)]
pub enum AnalysisStep {
    /// Decode this body into the provider's answer and report with `decoded`.
    Decode(String),
    /// The analysis failed.
    Failed(AppError),
}

/// The text that is put before the provider: the prompt, a rule, and the
/// content.
pub open spec fn prompt_text(prompt: Seq<char>, content: Seq<char>) -> Seq<char> {
    prompt + "\n\n---\n\nContent to analyze:\n\n"@ + content
}

/// The address of a model's generation endpoint, with the key.
pub open spec fn endpoint_text(model: Seq<char>, api_key: Seq<char>) -> Seq<char> {
    GEMINI_API_BASE@ + "/"@ + model + ":generateContent?key="@ + api_key
}

/// A status number that reports success.
pub open spec fn is_success(status_code: u16) -> bool {
    200 <= status_code < 300
}

/// What a reply leads to.
pub enum ReplyModel {
    Decode(Seq<char>),
    Failed(ErrorModel),
}

impl View for AnalysisStep {
    type V = ReplyModel;

    open spec fn view(&self) -> ReplyModel {
        match self {
            AnalysisStep::Decode(body) => ReplyModel::Decode(body@),
            AnalysisStep::Failed(error) => ReplyModel::Failed(error@),
        }
    }
}

/// The step that follows a reply: a successful answer is decoded, everything
/// else is a provider error that says what went wrong.
pub open spec fn reply_step(reply: GeminiReply) -> ReplyModel {
    match reply {
        GeminiReply::SendFailed(detail) => ReplyModel::Failed(
            ErrorModel::LlmProvider("Request failed: "@ + detail@),
        ),
        GeminiReply::ReadFailed(detail) => ReplyModel::Failed(
            ErrorModel::LlmProvider("Response read failed: "@ + detail@),
        ),
        GeminiReply::Answer { status_code, status, body } => if is_success(status_code) {
            ReplyModel::Decode(body@)
        } else {
            ReplyModel::Failed(ErrorModel::LlmProvider("Status "@ + status@ + ": "@ + body@))
        },
    }
}

/// The text of the first part of the first candidate, or the error that
/// says which of the two is missing.
pub open spec fn first_text(response: GeminiResponse) -> Result<Seq<char>, ErrorModel> {
    if response.candidates@.len() == 0 {
        Err(ErrorModel::LlmProvider("No candidates"@))
    } else if response.candidates@[0].content.parts@.len() == 0 {
        Err(ErrorModel::LlmProvider("No parts"@))
    } else {
        Ok(response.candidates@[0].content.parts@[0].text@)
    }
}

/// The output of an analysis, given what parsing the answer's text as JSON
/// returned: the parsed value, or a provider error with the parser's message.
pub fn parsed_output(parsed: Result<serde_json::Value, String>) -> (output: AppResult<
    serde_json::Value,
>)
    ensures
        match parsed {
            Ok(value) => output == Ok::<serde_json::Value, AppError>(value),
            Err(message) => output matches Err(error) && error@ == ErrorModel::LlmProvider(
                "JSON parse failed: "@ + message@,
            ),
        },
{
    match parsed {
        Ok(value) => Ok(value),
        Err(message) => Err(
            AppError::LlmProvider(String::from_str("JSON parse failed: ").concat(message.as_str())),
        ),
    }
}

/// The client of the analysis provider.
#[derive(Debug)]
pub struct GeminiClient {
    api_key: Option<String>,
}

impl GeminiClient {
    /// The configured key, as characters.
    pub closed spec fn key(&self) -> Option<Seq<char>> {
        match self.api_key {
            Some(key) => Some(key@),
            None => None,
        }
    }

    /// A client with the given key, or without one.
    pub fn new(api_key: Option<String>) -> (client: GeminiClient)
        ensures
            client.key() == match api_key {
                Some(key) => Some(key@),
                None => None,
            },
    {
        GeminiClient { api_key }
    }

    /// Whether a key is configured.
    pub fn is_configured(&self) -> (configured: bool)
        ensures
            configured == self.key() is Some,
    {
        self.api_key.is_some()
    }

    /// The address to which the analysis with `model` is sent.
    pub fn endpoint(&self, model: &str) -> (endpoint: AppResult<String>)
        ensures
            match self.key() {
                Some(key) => endpoint matches Ok(address) && address@ == endpoint_text(model@, key),
                None => endpoint matches Err(error) && error@ == ErrorModel::GeminiKeyNotConfigured,
            },
    {
        match &self.api_key {
            None => Err(AppError::GeminiKeyNotConfigured),
            Some(key) => Ok(
                String::from_str(GEMINI_API_BASE).concat("/").concat(model).concat(
                    ":generateContent?key=",
                ).concat(key.as_str()),
            ),
        }
    }

    /// The body of the analysis call for `content`: one message of one part,
    /// which holds the prompt and the content, and the request to answer in
    /// JSON of the given schema.
    pub fn build_payload(&self, content: &str, request: &AnalysisRequest) -> (payload:
        GeminiPayload)
        ensures
            payload.contents@.len() == 1,
            payload.contents@[0].parts@.len() == 1,
            payload.contents@[0].parts@[0].text@ == prompt_text(request.prompt@, content@),
            payload.generation_config.response_mime_type@ == RESPONSE_MIME_TYPE@,
            payload.generation_config.response_schema == request.response_schema,
    {
        let text = request.prompt.clone().concat("\n\n---\n\nContent to analyze:\n\n").concat(
            content,
        );
        let mut parts: Vec<RequestPart> = Vec::new();
        parts.push(RequestPart { text });
        let mut contents: Vec<RequestContent> = Vec::new();
        contents.push(RequestContent { parts });
        GeminiPayload {
            contents,
            generation_config: GenerationConfig {
                response_mime_type: String::from_str(RESPONSE_MIME_TYPE),
                response_schema: request.response_schema.clone(),
            },
        }
    }

    /// Prepares the analysis of `content`: the address and the body of the
    /// call. Without a configured key there is nothing to send.
    pub fn analyze(&self, content: &str, request: &AnalysisRequest) -> (call: AppResult<
        GeminiCall,
    >)
        ensures
            match self.key() {
                Some(key) => {
                    &&& call matches Ok(ready)
                    &&& ready.endpoint@ == endpoint_text(request.model@, key)
                    &&& ready.payload.contents@.len() == 1
                    &&& ready.payload.contents@[0].parts@.len() == 1
                    &&& ready.payload.contents@[0].parts@[0].text@ == prompt_text(
                        request.prompt@,
                        content@,
                    )
                    &&& ready.payload.generation_config.response_mime_type@ == RESPONSE_MIME_TYPE@
                    &&& ready.payload.generation_config.response_schema == request.response_schema
                },
                None => call matches Err(error) && error@ == ErrorModel::GeminiKeyNotConfigured,
            },
    {
        match self.endpoint(request.model.as_str()) {
            Err(error) => Err(error),
            Ok(endpoint) => Ok(GeminiCall { endpoint, payload: self.build_payload(content, request) }),
        }
    }

    /// Takes in what came of sending the call.
    pub fn reply(&self, reply: GeminiReply) -> (step: AnalysisStep)
        ensures
            step@ == reply_step(reply),
    {
        match reply {
            GeminiReply::SendFailed(detail) => AnalysisStep::Failed(
                AppError::LlmProvider(String::from_str("Request failed: ").concat(detail.as_str())),
            ),
            GeminiReply::ReadFailed(detail) => AnalysisStep::Failed(
                AppError::LlmProvider(
                    String::from_str("Response read failed: ").concat(detail.as_str()),
                ),
            ),
            GeminiReply::Answer { status_code, status, body } => {
                if 200 <= status_code && status_code < 300 {
                    AnalysisStep::Decode(body)
                } else {
                    AnalysisStep::Failed(
                        AppError::LlmProvider(
                            String::from_str("Status ").concat(status.as_str()).concat(": ").concat(
                                body.as_str(),
                            ),
                        ),
                    )
                }
            },
        }
    }

    /// Takes in the decoded answer, or the message with which decoding
    /// failed, and gives the output of the analysis.
    pub fn decoded(&self, answer: Result<GeminiResponse, String>) -> (output: AppResult<
        serde_json::Value,
    >)
        ensures
            match answer {
                Err(message) => output matches Err(error) && error@ == ErrorModel::LlmProvider(
                    "Parse failed: "@ + message@,
                ),
                Ok(response) => extracted(response, output),
            },
    {
        match answer {
            Err(message) => Err(
                AppError::LlmProvider(String::from_str("Parse failed: ").concat(message.as_str())),
            ),
            Ok(response) => self.extract_output(response),
        }
    }

    /// The output of an analysis: the text of the first part of the first
    /// candidate, parsed as JSON.
    pub fn extract_output(&self, response: GeminiResponse) -> (output: AppResult<
        serde_json::Value,
    >)
        ensures
            extracted(response, output),
    {
        let GeminiResponse { candidates } = response;
        let mut candidates = candidates;
        if candidates.len() == 0 {
            return Err(AppError::LlmProvider(String::from_str("No candidates")));
        }
        let first = candidates.swap_remove(0);
        let mut parts = first.content.parts;
        if parts.len() == 0 {
            return Err(AppError::LlmProvider(String::from_str("No parts")));
        }
        let part = parts.swap_remove(0);
        parsed_output(parse_json(part.text.as_str()))
    }
}

/// What `extract_output` returns for an answer: the error for a missing
/// candidate or part, else a value exactly if the text is JSON, else a provider
/// error with the parser's message.
pub open spec fn extracted(response: GeminiResponse, output: AppResult<serde_json::Value>) -> bool {
    match first_text(response) {
        Err(model) => output matches Err(error) && error@ == model,
        Ok(text) => match json_syntax_error(text) {
            None => output is Ok,
            Some(message) => output matches Err(error) && error@ == ErrorModel::LlmProvider(
                "JSON parse failed: "@ + message,
            ),
        },
    }
}

} // verus!
