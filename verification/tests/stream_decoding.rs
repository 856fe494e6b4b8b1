//! End-to-end behaviour of the array-framed stream decoder.

use vertex_stream::content::{
    Content, FinishReason, GenerateContentCandidate, GenerateContentResponse, Part, TextPart,
    UsageMetadata,
};
use vertex_stream::error::GeminiError;
use vertex_stream::framing::Phase;
use vertex_stream::text::str_to_chars;
use vertex_stream::Gemini;

fn push(g: &mut Gemini, s: &str) -> vertex_stream::GeminiStep {
    let chunk = str_to_chars(s);
    g.push_chunk(&chunk)
}

#[test]
fn two_units_between_tokens() {
    let mut g = Gemini::new();
    let s1 = push(&mut g, "[{");
    assert!(s1.item.is_none());
    assert!(!s1.done);
    let s2 = push(
        &mut g,
        "{\"candidates\":[{\"content\":{\"parts\":[{\"text\":\"one\"}],\"role\":\"model\"}}]}",
    );
    match s2.item {
        Some(Ok(r)) => {
            let cands = r.candidates.expect("candidates");
            assert_eq!(cands.len(), 1);
            match &cands[0].content.parts[0] {
                Part::TextPart(t) => assert_eq!(t.text, "one"),
                _ => panic!("wrong part kind"),
            }
        }
        _ => panic!("expected a success item"),
    }
    assert!(!s2.done);
    let s3 = push(&mut g, ",");
    assert!(s3.item.is_none());
    assert!(!s3.done);
    let s4 = push(
        &mut g,
        "{\"candidates\":[{\"content\":{\"parts\":[{\"text\":\"two\"}],\"role\":\"model\"}}]}",
    );
    match s4.item {
        Some(Ok(r)) => {
            let cands = r.candidates.expect("candidates");
            match &cands[0].content.parts[0] {
                Part::TextPart(t) => assert_eq!(t.text, "two"),
                _ => panic!("wrong part kind"),
            }
        }
        _ => panic!("expected a second success item"),
    }
    let s5 = push(&mut g, "]");
    assert!(s5.item.is_none());
    assert!(s5.done);
    assert!(g.is_done());
}

#[test]
fn quota_envelope_maps_to_resource_exhausted() {
    let mut g = Gemini::new();
    let s = push(&mut g, "[{\"error\":{\"code\":429,\"message\":\"quota\"}}]");
    match s.item {
        Some(Err(GeminiError::ResourceExhausted)) => {}
        other => panic!("expected ResourceExhausted, got {:?}", other),
    }
    assert!(s.done);
}

#[test]
fn split_unit_is_buffered_then_combined() {
    let mut g = Gemini::new();
    let s1 = push(&mut g, "{\"candida");
    assert!(s1.item.is_none());
    assert!(!s1.done);
    let s2 = push(
        &mut g,
        "tes\":[{\"content\":{\"parts\":[{\"text\":\"joined\"}],\"role\":\"model\"}}]}",
    );
    match s2.item {
        Some(Ok(r)) => {
            let cands = r.candidates.expect("candidates");
            match &cands[0].content.parts[0] {
                Part::TextPart(t) => assert_eq!(t.text, "joined"),
                _ => panic!("wrong part kind"),
            }
        }
        other => panic!("expected the reassembled item, got {:?}", other),
    }
}

#[test]
fn nothing_after_end_token() {
    let mut g = Gemini::new();
    push(&mut g, "[{");
    let s = push(&mut g, "]");
    assert!(s.done);
    let after = push(
        &mut g,
        "{\"candidates\":[{\"content\":{\"parts\":[{\"text\":\"late\"}],\"role\":\"model\"}}]}",
    );
    assert!(after.item.is_none());
    assert!(after.done);
    assert!(g.is_done());
}

#[test]
fn nothing_after_envelope_error() {
    let mut g = Gemini::new();
    push(&mut g, "[{\"error\":{\"code\":503,\"message\":\"down\"}}]");
    let after = push(&mut g, ",");
    assert!(after.item.is_none());
    assert!(after.done);
}

#[test]
fn schema_mismatch_is_fatal() {
    let mut g = Gemini::new();
    // Valid JSON, but `candidates` is not an array.
    let s = push(&mut g, "{\"candidates\":7}");
    match s.item {
        Some(Err(GeminiError::ParseError(_))) => {}
        other => panic!("expected a parse error, got {:?}", other),
    }
    assert!(s.done);
}

#[test]
fn invalid_utf8_is_fatal() {
    let mut g = Gemini::new();
    let s = g.push_bytes(vec![0xff, 0xfe, 0x20]);
    match s.item {
        Some(Err(GeminiError::ParseError(_))) => {}
        other => panic!("expected a parse error, got {:?}", other),
    }
    assert!(s.done);
}

#[test]
fn valid_utf8_bytes_decode() {
    let mut g = Gemini::new();
    let body =
        "{\"candidates\":[{\"content\":{\"parts\":[{\"text\":\"héllo\"}],\"role\":\"model\"}}]}";
    let s = g.push_bytes(body.as_bytes().to_vec());
    match s.item {
        Some(Ok(r)) => match &r.candidates.expect("candidates")[0].content.parts[0] {
            Part::TextPart(t) => assert_eq!(t.text, "héllo"),
            _ => panic!("wrong part kind"),
        },
        other => panic!("expected a success item, got {:?}", other),
    }
}

#[test]
fn finish_reason_and_usage_are_decoded() {
    let mut g = Gemini::new();
    let body = "{\"candidates\":[{\"content\":{\"parts\":[{\"text\":\"x\"}],\"role\":\"model\"},\
                \"finishReason\":\"STOP\",\"index\":0}],\
                \"usageMetadata\":{\"promptTokenCount\":5,\"candidatesTokenCount\":7,\
                \"totalTokenCount\":12}}";
    let s = push(&mut g, body);
    match s.item {
        Some(Ok(r)) => {
            let cands = r.candidates.expect("candidates");
            assert_eq!(cands[0].finish_reason, Some(FinishReason::Stop));
            assert_eq!(cands[0].index, Some(0));
            let um = r.usage_metadata.expect("usage");
            assert_eq!(um.prompt_token_count, Some(5));
            assert_eq!(um.candidates_token_count, Some(7));
            assert_eq!(um.total_token_count, Some(12));
        }
        other => panic!("expected a success item, got {:?}", other),
    }
}

#[test]
fn unrecognized_first_line_is_content() {
    let mut g = Gemini::new();
    assert_eq!(g.framer.phase, Phase::AwaitingFirst);
    let s = push(
        &mut g,
        "{\"candidates\":[{\"content\":{\"parts\":[{\"text\":\"solo\"}],\"role\":\"model\"}}]}",
    );
    assert!(matches!(s.item, Some(Ok(_))));
    assert!(!s.done);
}

#[test]
fn whole_body_decoding() {
    let body = "{\"candidates\":[{\"content\":{\"parts\":[{\"text\":\"full\"}],\"role\":\"model\"}}],\
                \"usageMetadata\":{\"totalTokenCount\":3}}";
    let r = vertex_stream::gemini::decode_generate_content(body).expect("should decode");
    let um = r.usage_metadata.expect("usage");
    assert_eq!(um.total_token_count, Some(3));
    assert_eq!(um.prompt_token_count, None);
    let bad = vertex_stream::gemini::decode_generate_content("not json");
    assert!(matches!(bad, Err(GeminiError::ParseError(_))));
}

#[test]
fn serialized_response_decodes_to_an_equal_object() {
    let original = GenerateContentResponse {
        candidates: Some(vec![GenerateContentCandidate {
            content: Content {
                parts: vec![
                    Part::TextPart(TextPart { text: "first \"quoted\"".to_string() }),
                    Part::TextPart(TextPart { text: "second\nline".to_string() }),
                ],
                role: "model".to_string(),
            },
            index: Some(0),
            finish_reason: Some(FinishReason::Stop),
            finish_message: None,
            safety_ratings: None,
            citation_metadata: None,
        }]),
        prompt_feedback: None,
        usage_metadata: Some(UsageMetadata {
            prompt_token_count: Some(11),
            candidates_token_count: None,
            total_token_count: Some(12),
            cached_content_token_count: None,
        }),
    };
    let text = vertex_stream::encode::encode_generate_content_response(&original);
    let back = vertex_stream::gemini::decode_generate_content(&text).expect("round trip decodes");
    assert_eq!(back, original);
}

#[test]
fn split_after_continuation_token_is_buffered_then_combined() {
    let mut g = Gemini::new();
    push(&mut g, "[{");
    push(
        &mut g,
        "{\"candidates\":[{\"content\":{\"parts\":[{\"text\":\"a\"}],\"role\":\"model\"}}]}",
    );
    let s1 = push(&mut g, ",\n{\"candida");
    assert!(s1.item.is_none());
    assert!(!s1.done);
    let s2 = push(
        &mut g,
        "tes\":[{\"content\":{\"parts\":[{\"text\":\"b\"}],\"role\":\"model\"}}]}",
    );
    match s2.item {
        Some(Ok(r)) => match &r.candidates.expect("candidates")[0].content.parts[0] {
            Part::TextPart(p) => assert_eq!(p.text, "b"),
            _ => panic!("wrong part kind"),
        },
        other => panic!("expected the reassembled item, got {:?}", other),
    }
    let s3 = push(&mut g, "]");
    assert!(s3.done);
}
