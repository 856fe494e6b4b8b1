//! The error tables, the chat-variant decoder, defaults and model
//! names.

use vertex_stream::chat_response::{FinishReason, HarmCategory, HarmProbability};
use vertex_stream::error::{claude_error_from_tag, gemini_error_from_status};
use vertex_stream::error::{ClaudeError, GeminiError};
use vertex_stream::text::str_to_chars;
use vertex_stream::Chat;

#[test]
fn status_codes_map_to_their_kinds() {
    assert!(matches!(gemini_error_from_status(400), GeminiError::InvalidArgument));
    assert!(matches!(gemini_error_from_status(403), GeminiError::PermissionDenied));
    assert!(matches!(gemini_error_from_status(404), GeminiError::NotFound));
    assert!(matches!(gemini_error_from_status(429), GeminiError::ResourceExhausted));
    assert!(matches!(gemini_error_from_status(499), GeminiError::Cancelled));
    assert!(matches!(gemini_error_from_status(500), GeminiError::Internal));
    assert!(matches!(gemini_error_from_status(503), GeminiError::Unavailable));
    assert!(matches!(gemini_error_from_status(504), GeminiError::DeadlineExceeded));
    assert!(matches!(gemini_error_from_status(418), GeminiError::Internal));
}

#[test]
fn claude_tags_map_to_their_kinds() {
    let m = || "m".to_string();
    assert!(matches!(
        claude_error_from_tag("invalid_request_error", m()),
        ClaudeError::InvalidRequestError(_)
    ));
    assert!(matches!(
        claude_error_from_tag("authentication_error", m()),
        ClaudeError::AuthenticationError(_)
    ));
    assert!(matches!(
        claude_error_from_tag("permission_error", m()),
        ClaudeError::PermissionError(_)
    ));
    assert!(matches!(claude_error_from_tag("not_found_error", m()), ClaudeError::NotFoundError(_)));
    assert!(matches!(
        claude_error_from_tag("request_too_large", m()),
        ClaudeError::RequestTooLarge(_)
    ));
    assert!(matches!(
        claude_error_from_tag("rate_limit_error", m()),
        ClaudeError::RateLimitError(_)
    ));
    assert!(matches!(claude_error_from_tag("api_error", m()), ClaudeError::ApiError(_)));
    assert!(matches!(
        claude_error_from_tag("overloaded_error", m()),
        ClaudeError::OverloadedError(_)
    ));
    assert!(matches!(claude_error_from_tag("anything_else", m()), ClaudeError::Internal(_)));
}

#[test]
fn chat_stream_decodes_candidates() {
    let mut c = Chat::new();
    let s1 = c.push_chunk(&str_to_chars("[{"));
    assert!(s1.item.is_none());
    let body = "{\"candidates\":[{\"content\":{\"parts\":[{\"text\":\"chat\"}]},\
                \"finishReason\":\"STOP\",\
                \"safetyRatings\":[{\"category\":\"HARASSMENT\",\
                \"probability\":\"NEGLIGIBLE\",\"blocked\":false}],\
                \"avgLogprobs\":-0.25}],\
                \"usageMetadata\":{\"promptTokenCount\":1,\"candidatesTokenCount\":2,\
                \"totalTokenCount\":3},\"modelVersion\":\"v1\"}";
    let s2 = c.push_chunk(&str_to_chars(body));
    match s2.item {
        Some(Ok(r)) => {
            let cands = r.candidates.expect("candidates");
            assert_eq!(cands[0].content.parts[0].text, "chat");
            assert_eq!(cands[0].finish_reason, Some(FinishReason::Stop));
            let ratings = cands[0].safety_ratings.as_ref().expect("ratings");
            assert_eq!(ratings[0].category, HarmCategory::Harassment);
            assert_eq!(ratings[0].probability, HarmProbability::Negligible);
            assert!(!ratings[0].blocked);
            // The log probability is kept as its exact lexeme.
            assert_eq!(cands[0].avg_logprobs.as_deref(), Some("-0.25"));
            assert_eq!(r.usage_metadata.expect("usage").total_token_count, 3);
            assert_eq!(r.model_version.as_deref(), Some("v1"));
        }
        other => panic!("expected a chat item, got {:?}", other),
    }
    let s3 = c.push_chunk(&str_to_chars("]"));
    assert!(s3.done);
}

#[test]
fn chat_envelope_is_an_error() {
    let mut c = Chat::new();
    let s = c.push_chunk(&str_to_chars("[{\"error\":{\"code\":403,\"message\":\"no\"}}]"));
    assert!(matches!(s.item, Some(Err(GeminiError::PermissionDenied))));
    assert!(s.done);
}

#[test]
fn generation_config_defaults() {
    let g = vertex_stream::chat_request::GenerationConfig::default();
    assert_eq!(g.temperature.as_deref(), Some("1.0"));
    assert_eq!(g.top_p.as_deref(), Some("0.95"));
    assert_eq!(g.max_output_tokens, Some(1024));
    assert_eq!(g.top_k, None);
    assert_eq!(g.candidate_count, None);
}

#[test]
fn safety_setting_defaults() {
    let s = vertex_stream::chat_request::SafetySetting::default();
    assert_eq!(s.0.len(), 4);
    assert_eq!(s.0[0].category, "HARM_CATEGORY_HATE_SPEECH");
    assert_eq!(s.0[1].category, "HARM_CATEGORY_DANGEROUS_CONTENT");
    assert_eq!(s.0[2].category, "HARM_CATEGORY_SEXUALLY_EXPLICIT");
    assert_eq!(s.0[3].category, "HARM_CATEGORY_HARASSMENT");
    assert!(s.0.iter().all(|x| x.threshold == "OFF"));
}

#[test]
fn model_names() {
    assert_eq!(vertex_stream::model::GeminiModel::Gemini15Pro002.name(), "gemini-1.5-pro-002");
    assert_eq!(vertex_stream::model::GeminiModel::Gemini10Pro.name(), "gemini-1.0-pro");
    assert_eq!(
        vertex_stream::gemini_model::GeminiModel::Gemini20Flash001.name(),
        "gemini-2.0-flash-001"
    );
    assert_eq!(
        vertex_stream::gemini_model::GeminiModel::Gemini15ProLatestStable.name(),
        "gemini-1.5-pro"
    );
}

#[test]
fn error_envelope_with_status_field() {
    let mut g = vertex_stream::Gemini::new();
    let s = g.push_chunk(&str_to_chars(
        "[{\"error\":{\"code\":504,\"message\":\"slow\",\"status\":\"DEADLINE_EXCEEDED\"}}]",
    ));
    assert!(matches!(s.item, Some(Err(GeminiError::DeadlineExceeded))));
}

#[test]
fn malformed_envelope_is_a_parse_error() {
    let mut g = vertex_stream::Gemini::new();
    let s = g.push_chunk(&str_to_chars("[{\"error\":{\"message\":\"no code\"}}]"));
    assert!(matches!(s.item, Some(Err(GeminiError::ParseError(_)))));
    assert!(s.done);
}
