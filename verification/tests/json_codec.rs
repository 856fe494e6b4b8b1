//! The JSON codec: parsing, rendering, and the round trip between
//! them.

use vertex_stream::json::Json;
use vertex_stream::json_exec::{json_parse_chars, json_to_string};
use vertex_stream::text::str_to_chars;

fn parse(s: &str) -> Option<Json> {
    json_parse_chars(&str_to_chars(s))
}

#[test]
fn scalars_parse() {
    assert_eq!(parse("null"), Some(Json::Null));
    assert_eq!(parse("true"), Some(Json::Bool(true)));
    assert_eq!(parse("false"), Some(Json::Bool(false)));
    assert_eq!(parse("42"), Some(Json::Num("42".to_string())));
    assert_eq!(parse("-1.5e3"), Some(Json::Num("-1.5e3".to_string())));
    assert_eq!(parse("\"hi\""), Some(Json::Text("hi".to_string())));
}

#[test]
fn surrounding_whitespace_is_tolerated() {
    assert_eq!(parse("  {\"a\": 1 }\n"), parse("{\"a\":1}"));
}

#[test]
fn garbage_is_rejected() {
    assert_eq!(parse(""), None);
    assert_eq!(parse("{"), None);
    assert_eq!(parse("{\"a\":}"), None);
    assert_eq!(parse("[1,]"), None);
    assert_eq!(parse("01"), None);
    assert_eq!(parse("\"unterminated"), None);
    assert_eq!(parse("{\"a\":1} trailing"), None);
}

#[test]
fn escapes_decode() {
    assert_eq!(parse("\"a\\n\\t\\\\\\\"b\""), Some(Json::Text("a\n\t\\\"b".to_string())));
    assert_eq!(parse("\"\\u0041\""), Some(Json::Text("A".to_string())));
    // A lone surrogate escape is rejected.
    assert_eq!(parse("\"\\uD800\""), None);
    // A raw control character inside a string is rejected.
    assert_eq!(parse("\"a\u{1}b\""), None);
}

#[test]
fn nested_structures_parse() {
    let v = parse("{\"xs\":[1,2],\"o\":{\"b\":true}}").expect("should parse");
    match v {
        Json::Obj(fs) => {
            assert_eq!(fs.len(), 2);
            assert_eq!(fs[0].0, "xs");
            match &fs[0].1 {
                Json::Arr(es) => assert_eq!(es.len(), 2),
                _ => panic!("xs should be an array"),
            }
        }
        _ => panic!("should be an object"),
    }
}

#[test]
fn render_then_parse_is_identity() {
    let v = parse(
        "{\"text\":\"say \\\"hi\\\"\\n\",\"n\":-2.75e-1,\"flags\":[true,false,null],\"empty\":{}}",
    )
    .expect("should parse");
    let rendered = json_to_string(&v);
    let back = json_parse_chars(&str_to_chars(rendered.as_str()));
    assert_eq!(back, Some(v));
}

#[test]
fn rendering_is_canonical() {
    let v = parse(" { \"a\" : [ 1 , 2 ] } ").expect("should parse");
    assert_eq!(json_to_string(&v), "{\"a\":[1,2]}");
}

#[test]
fn parse_u32_digits_reads_exact_values() {
    assert_eq!(vertex_stream::parse_u32_digits(&str_to_chars("429")), Some(429));
    assert_eq!(vertex_stream::parse_u32_digits(&str_to_chars("0")), Some(0));
    assert_eq!(vertex_stream::parse_u32_digits(&str_to_chars("4294967295")), Some(4294967295));
    assert_eq!(vertex_stream::parse_u32_digits(&str_to_chars("4294967296")), None);
    assert_eq!(vertex_stream::parse_u32_digits(&str_to_chars("")), None);
    assert_eq!(vertex_stream::parse_u32_digits(&str_to_chars("-1")), None);
    assert_eq!(vertex_stream::parse_u32_digits(&str_to_chars("1.5")), None);
}

#[test]
fn control_characters_render_as_unicode_escapes() {
    let v = Json::Text("a\u{1}b\u{1f}".to_string());
    let rendered = json_to_string(&v);
    assert_eq!(rendered, "\"a\\u0001b\\u001f\"");
    assert_eq!(parse(&rendered), Some(v));
}

#[test]
fn number_lexemes_are_kept_verbatim() {
    let v = parse("[0.5000, 1e9, -0]").expect("should parse");
    assert_eq!(json_to_string(&v), "[0.5000,1e9,-0]");
}
