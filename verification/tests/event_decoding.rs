//! End-to-end behaviour of the event-framed stream decoder.

use vertex_stream::claude_types::{
    ClaudeContent, ClaudeStopReason, ClaudeUsage, RawPredictResponse, StreamRawPredictResponse,
};
use vertex_stream::error::ClaudeError;
use vertex_stream::{Claude, SseRecord};

fn msg(data: &str) -> SseRecord {
    SseRecord::Message { data: data.to_string(), event_type: "message".to_string() }
}

#[test]
fn open_is_skipped() {
    let mut c = Claude::new();
    let s = c.step(&SseRecord::Open);
    assert!(s.item.is_none());
    assert!(!s.done);
}

#[test]
fn message_stop_ends_the_sequence() {
    let mut c = Claude::new();
    c.step(&SseRecord::Open);
    let s1 = c.step(&msg("{\"type\":\"content_block_delta\",\"index\":0,\
                          \"delta\":{\"type\":\"text_delta\",\"text\":\"hi\"}}"));
    match s1.item {
        Some(Ok(StreamRawPredictResponse::ContentBlockDelta { index, delta })) => {
            assert_eq!(index, Some(0));
            assert_eq!(delta.text, "hi");
        }
        other => panic!("expected a delta event, got {:?}", other),
    }
    assert!(!s1.done);
    let s2 = c.step(&msg("{\"type\":\"message_stop\"}"));
    assert!(matches!(s2.item, Some(Ok(StreamRawPredictResponse::MessageStop))));
    assert!(s2.done);
    // More events on the wire after the stop are never surfaced.
    let s3 = c.step(&msg("{\"type\":\"ping\"}"));
    assert!(s3.item.is_none());
    assert!(s3.done);
    assert!(c.is_done());
}

#[test]
fn ping_is_an_item_not_an_end() {
    let mut c = Claude::new();
    let s = c.step(&msg("{\"type\":\"ping\"}"));
    assert!(matches!(s.item, Some(Ok(StreamRawPredictResponse::Ping))));
    assert!(!s.done);
}

#[test]
fn message_start_carries_the_whole_message() {
    let mut c = Claude::new();
    let s = c.step(&msg(
        "{\"type\":\"message_start\",\"message\":{\"id\":\"m1\",\"type\":\"message\",\
         \"role\":\"assistant\",\"content\":[{\"type\":\"text\",\"text\":\"hey\"}],\
         \"stop_reason\":\"end_turn\",\"stop_sequence\":null,\
         \"usage\":{\"input_tokens\":3,\"output_tokens\":9}}}",
    ));
    match s.item {
        Some(Ok(StreamRawPredictResponse::MessageStart { message })) => {
            assert_eq!(message.id, "m1");
            assert_eq!(message.role, "assistant");
            assert_eq!(message.content.len(), 1);
            assert_eq!(message.content[0].text, "hey");
            assert_eq!(message.stop_reason, Some(ClaudeStopReason::EndTurn));
            assert_eq!(message.stop_sequence, None);
            assert_eq!(message.usage.input_tokens, 3);
            assert_eq!(message.usage.output_tokens, 9);
        }
        other => panic!("expected a start event, got {:?}", other),
    }
}

#[test]
fn error_envelope_maps_through_the_tag_table() {
    let mut c = Claude::new();
    let s = c.step(&msg(
        "{\"type\":\"error\",\"error\":{\"type\":\"overloaded_error\",\"message\":\"busy\"}}",
    ));
    match s.item {
        Some(Err(ClaudeError::OverloadedError(m))) => assert_eq!(m, "busy"),
        other => panic!("expected an overloaded error, got {:?}", other),
    }
    assert!(s.done);
}

#[test]
fn unknown_error_tag_falls_back_to_internal() {
    let mut c = Claude::new();
    let s = c.step(&msg(
        "{\"type\":\"error\",\"error\":{\"type\":\"weird_error\",\"message\":\"odd\"}}",
    ));
    match s.item {
        Some(Err(ClaudeError::Internal(m))) => assert_eq!(m, "odd"),
        other => panic!("expected the internal fallback, got {:?}", other),
    }
    assert!(s.done);
}

#[test]
fn unparseable_message_is_fatal() {
    let mut c = Claude::new();
    let s = c.step(&msg("{\"neither\":true}"));
    assert!(matches!(s.item, Some(Err(ClaudeError::ParseError(_)))));
    assert!(s.done);
    let after = c.step(&msg("{\"type\":\"ping\"}"));
    assert!(after.item.is_none());
}

#[test]
fn whole_message_body_decoding() {
    let body = "{\"id\":\"m2\",\"type\":\"message\",\"role\":\"assistant\",\
                \"content\":[{\"type\":\"text\",\"text\":\"done\"}],\
                \"stop_reason\":\"max_tokens\",\
                \"usage\":{\"input_tokens\":1,\"output_tokens\":2}}";
    let r = vertex_stream::claude::decode_raw_predict(body).expect("should decode");
    assert_eq!(r.stop_reason, Some(ClaudeStopReason::MaxTokens));
    assert_eq!(r.content[0].text, "done");
    let bad = vertex_stream::claude::decode_raw_predict("][");
    assert!(matches!(bad, Err(ClaudeError::ParseError(_))));
}

#[test]
fn serialized_message_decodes_to_an_equal_object() {
    let original = RawPredictResponse {
        id: "msg_7".to_string(),
        m_type: "message".to_string(),
        role: "assistant".to_string(),
        content: vec![
            ClaudeContent { c_type: "text".to_string(), text: "say \"hi\"\n".to_string() },
            ClaudeContent { c_type: "text".to_string(), text: "tab\there".to_string() },
        ],
        stop_reason: Some(ClaudeStopReason::EndTurn),
        stop_sequence: Some("##".to_string()),
        usage: ClaudeUsage { input_tokens: 4294967295, output_tokens: 0 },
    };
    let text = vertex_stream::encode::encode_raw_predict_response(&original);
    let back = vertex_stream::claude::decode_raw_predict(&text).expect("round trip decodes");
    assert_eq!(back, original);
}

#[test]
fn serialized_message_without_stop_data_round_trips() {
    let original = RawPredictResponse {
        id: "m".to_string(),
        m_type: "message".to_string(),
        role: "assistant".to_string(),
        content: vec![ClaudeContent { c_type: "text".to_string(), text: String::new() }],
        stop_reason: None,
        stop_sequence: None,
        usage: ClaudeUsage { input_tokens: 0, output_tokens: 7 },
    };
    let text = vertex_stream::encode::encode_raw_predict_response(&original);
    let back = vertex_stream::claude::decode_raw_predict(&text).expect("round trip decodes");
    assert_eq!(back, original);
}
