use distill::browser::BrowserStats;
use distill::error::AppError;
use distill::handlers::{
    analysis_fields, authorize, health_handler, scrape_handler, scrape_response, secure_compare,
    HandlerAction, HandlerEvent, API_KEY_HEADER,
};
use distill::models::{AnalysisRequest, OutputFormat, PageMetadata, ScrapeRequest};
use std::collections::HashMap;

// ==================== secure_compare ====================

#[test]
fn secure_compare_equal() {
    assert!(secure_compare("secret", "secret"));
}

#[test]
fn secure_compare_different() {
    assert!(!secure_compare("secret", "wrong"));
}

#[test]
fn secure_compare_empty() {
    assert!(secure_compare("", ""));
    assert!(!secure_compare("", "x"));
}

#[test]
fn secure_compare_different_length() {
    assert!(!secure_compare("short", "longer_string"));
}

#[test]
fn secure_compare_same_length_one_byte_apart() {
    assert!(!secure_compare("secret", "secreT"));
    assert!(!secure_compare("aecret", "secret"));
}

#[test]
fn secure_compare_non_ascii() {
    assert!(secure_compare("schlüssel", "schlüssel"));
    assert!(!secure_compare("schlüssel", "schlussel"));
}

// ==================== authorize ====================

#[test]
fn authorize_accepts_the_configured_key() {
    assert!(authorize(Some("changeme"), "changeme").is_ok());
}

#[test]
fn authorize_rejects_a_wrong_key() {
    let err = authorize(Some("guess"), "changeme").unwrap_err();
    assert_eq!(err.code(), "UNAUTHORIZED");
}

#[test]
fn authorize_rejects_a_missing_key() {
    let err = authorize(None, "changeme").unwrap_err();
    assert!(matches!(err, AppError::Unauthorized));
}

#[test]
fn authorize_takes_a_missing_key_as_the_empty_key() {
    assert!(authorize(None, "").is_ok());
    assert!(authorize(Some(""), "").is_ok());
}

#[test]
fn api_key_header_name() {
    assert_eq!(API_KEY_HEADER, "x-api-key");
}

// ==================== answers ====================

fn metadata(title: &str) -> PageMetadata {
    PageMetadata { title: title.to_string(), og_tags: HashMap::new() }
}

#[test]
fn analysis_fields_without_analysis() {
    let (result, error) = analysis_fields(None);
    assert!(result.is_none());
    assert!(error.is_none());
}

#[test]
fn analysis_fields_with_result() {
    let value = serde_json::Value::String("summary".to_string());
    let (result, error) = analysis_fields(Some(Ok(value.clone())));
    assert_eq!(result, Some(value));
    assert!(error.is_none());
}

#[test]
fn analysis_fields_with_failure() {
    let (result, error) =
        analysis_fields(Some(Err(AppError::LlmProvider("No candidates".to_string()))));
    assert!(result.is_none());
    assert_eq!(error.unwrap(), "LLM provider error: No candidates");
}

#[test]
fn scrape_response_keeps_content_when_analysis_fails() {
    let response = scrape_response(
        metadata("Title"),
        "Content".to_string(),
        Some(Err(AppError::GeminiKeyNotConfigured)),
    );
    assert!(response.success);
    assert!(response.error.is_none());
    let data = response.data.unwrap();
    assert_eq!(data.metadata.title, "Title");
    assert_eq!(data.content, "Content");
    assert!(data.analysis_result.is_none());
    assert_eq!(data.analysis_error.unwrap(), "Gemini API key not configured");
}

#[test]
fn scrape_response_without_analysis() {
    let response = scrape_response(metadata("T"), "C".to_string(), None);
    let data = response.data.unwrap();
    assert!(data.analysis_result.is_none());
    assert!(data.analysis_error.is_none());
}

#[test]
fn health_handler_is_healthy_and_carries_the_stats() {
    let report = health_handler(BrowserStats {
        max_concurrent: 50,
        available_slots: 48,
        idle_tabs: 1,
        active_tabs: 2,
    });
    assert_eq!(report.status, "healthy");
    assert_eq!(report.browser.max_concurrent, 50);
    assert_eq!(report.browser.available_slots, 48);
    assert_eq!(report.browser.idle_tabs, 1);
    assert_eq!(report.browser.active_tabs, 2);
}

// ==================== the handling of a request ====================

fn request(url: &str, analysis: bool) -> ScrapeRequest {
    ScrapeRequest {
        url: url.to_string(),
        output_format: OutputFormat::Html,
        analysis_request: if analysis {
            Some(AnalysisRequest {
                model: "gemini-pro".to_string(),
                prompt: "Summarize".to_string(),
                response_schema: serde_json::Value::Null,
            })
        } else {
            None
        },
    }
}

#[test]
fn scrape_handler_answers_a_wrong_key_at_once() {
    let (handler, action) = scrape_handler("key", Some("guess"), request("https://example.com", false));
    assert!(handler.is_done());
    assert!(matches!(action, HandlerAction::Respond(Err(AppError::Unauthorized))));
}

#[test]
fn scrape_handler_answers_a_bad_target_at_once() {
    let (handler, action) = scrape_handler("key", Some("key"), request("http://localhost", false));
    assert!(handler.is_done());
    match action {
        HandlerAction::Respond(Err(AppError::InvalidRequest(message))) => {
            assert_eq!(message, "Localhost not allowed")
        }
        other => panic!("unexpected {:?}", other),
    }
}

#[test]
fn scrape_handler_without_analysis_answers_after_the_scrape() {
    let (mut handler, action) =
        scrape_handler("key", Some("key"), request("https://example.com/a", false));
    match action {
        HandlerAction::Scrape { url, output_format } => {
            assert_eq!(url.as_str(), "https://example.com/a");
            assert_eq!(output_format, OutputFormat::Html);
        }
        other => panic!("unexpected {:?}", other),
    }
    assert!(!handler.is_done());
    let action = handler.advance(HandlerEvent::Scraped(Ok((metadata("T"), "<p>x</p>".to_string()))));
    match action {
        HandlerAction::Respond(Ok(response)) => {
            assert!(response.success);
            let data = response.data.unwrap();
            assert_eq!(data.metadata.title, "T");
            assert_eq!(data.content, "<p>x</p>");
            assert!(data.analysis_result.is_none());
            assert!(data.analysis_error.is_none());
        }
        other => panic!("unexpected {:?}", other),
    }
    assert!(handler.is_done());
}

#[test]
fn scrape_handler_passes_a_failed_scrape_on() {
    let (mut handler, _) = scrape_handler("key", Some("key"), request("https://example.com", true));
    let action =
        handler.advance(HandlerEvent::Scraped(Err(AppError::Timeout("Timeout after 10s: u".to_string()))));
    assert!(matches!(action, HandlerAction::Respond(Err(AppError::Timeout(_)))));
    assert!(handler.is_done());
}

#[test]
fn scrape_handler_with_analysis_answers_after_the_analysis() {
    let (mut handler, _) = scrape_handler("key", Some("key"), request("https://example.com", true));
    let action = handler.advance(HandlerEvent::Scraped(Ok((metadata("T"), "text".to_string()))));
    match action {
        HandlerAction::Analyze { content, request } => {
            assert_eq!(content, "text");
            assert_eq!(request.prompt, "Summarize");
            assert_eq!(request.model, "gemini-pro");
        }
        other => panic!("unexpected {:?}", other),
    }
    assert!(!handler.is_done());
    let value = serde_json::Value::String("summary".to_string());
    match handler.advance(HandlerEvent::Analyzed(Ok(value.clone()))) {
        HandlerAction::Respond(Ok(response)) => {
            let data = response.data.unwrap();
            assert_eq!(data.content, "text");
            assert_eq!(data.analysis_result, Some(value));
            assert!(data.analysis_error.is_none());
        }
        other => panic!("unexpected {:?}", other),
    }
    assert!(handler.is_done());
}

#[test]
fn scrape_handler_keeps_the_content_when_the_analysis_fails() {
    let (mut handler, _) = scrape_handler("key", Some("key"), request("https://example.com", true));
    handler.advance(HandlerEvent::Scraped(Ok((metadata("T"), "text".to_string()))));
    let failure = AppError::LlmProvider("Status 500 Internal Server Error: oops".to_string());
    match handler.advance(HandlerEvent::Analyzed(Err(failure))) {
        HandlerAction::Respond(Ok(response)) => {
            assert!(response.success);
            let data = response.data.unwrap();
            assert_eq!(data.content, "text");
            assert!(data.analysis_result.is_none());
            assert_eq!(
                data.analysis_error.unwrap(),
                "LLM provider error: Status 500 Internal Server Error: oops"
            );
        }
        other => panic!("unexpected {:?}", other),
    }
}

#[test]
fn scrape_handler_ignores_what_answers_no_pending_step() {
    let (mut handler, _) = scrape_handler("key", Some("key"), request("https://example.com", true));
    assert!(matches!(
        handler.advance(HandlerEvent::Analyzed(Ok(serde_json::Value::Null))),
        HandlerAction::Ignored
    ));
    assert!(!handler.is_done());
    handler.advance(HandlerEvent::Scraped(Ok((metadata("T"), "text".to_string()))));
    assert!(matches!(
        handler.advance(HandlerEvent::Scraped(Ok((metadata("T"), "again".to_string())))),
        HandlerAction::Ignored
    ));
    assert!(matches!(
        handler.advance(HandlerEvent::Analyzed(Ok(serde_json::Value::Null))),
        HandlerAction::Respond(Ok(_))
    ));
    assert!(matches!(
        handler.advance(HandlerEvent::Analyzed(Ok(serde_json::Value::Null))),
        HandlerAction::Ignored
    ));
    assert!(handler.is_done());
}
