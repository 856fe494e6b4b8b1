//! The wire objects of the event-framed backend: models, request
//! shapes, the message events carried in the `data` field of each
//! record, and the error envelope.

use vstd::prelude::*;

use crate::decode::{
    get_field, opt_text_field, opt_text_field_x, req_text_field, req_text_field_x, req_u32_field,
    req_u32_field_x, get_field_x, str_eq, view_opt_string, lemma_jview_seq_index, lift_tag,
};
use crate::json::{jview, jview_seq, Json, JsonView};

verus! {

/// The models of the event-framed backend.
#[derive(Clone, Copy, Debug, PartialEq, Eq, Structural)]
pub enum ClaudeModel {
    Claude35SonnetV2,
    Claude35Sonnet,
    Claude3Opus,
    Claude3Haiku,
    Claude3Sonnet,
}

/// A system prompt: plain text or structured content blocks.
#[derive(Debug, PartialEq)]
pub enum ClaudeSystemPrompt {
    Text(String),
    Content(Vec<ClaudeContent>),
}

/// One message of a conversation.
#[derive(Clone, Debug, PartialEq)]
pub struct ClaudeMessage {
    pub role: String,
    pub content: String,
}

/// A request to the event-framed backend; the sampling knobs keep
/// their exact number lexemes as text.
#[derive(Debug, PartialEq)]
pub struct RawPredictRequest {
    pub anthropic_version: String,
    pub max_tokens: u32,
    pub system: ClaudeSystemPrompt,
    pub stream: bool,
    pub messages: Vec<ClaudeMessage>,
    pub top_p: Option<String>,
    pub temperature: Option<String>,
}

/// One content block.
#[derive(Clone, Debug, PartialEq)]
pub struct ClaudeContent {
    pub c_type: String,
    pub text: String,
}

/// Why a turn stopped.
#[derive(Clone, Copy, Debug, PartialEq, Eq, Structural)]
pub enum ClaudeStopReason {
    EndTurn,
    MaxTokens,
    StopSequence,
    ToolUse,
}

/// The stop reason a wire tag names.
pub open spec fn stop_reason_of(t: Seq<char>) -> Option<ClaudeStopReason> {
    if t == "end_turn"@ {
        Some(ClaudeStopReason::EndTurn)
    } else if t == "max_tokens"@ {
        Some(ClaudeStopReason::MaxTokens)
    } else if t == "max_time"@ {
        Some(ClaudeStopReason::StopSequence)
    } else if t == "tool_use"@ {
        Some(ClaudeStopReason::ToolUse)
    } else {
        None
    }
}

/// Reads a stop reason tag.
pub fn stop_reason_from(t: &str) -> (r: Option<ClaudeStopReason>)
    ensures
        r == stop_reason_of(t@),
{
    if str_eq(t, "end_turn") {
        Some(ClaudeStopReason::EndTurn)
    } else if str_eq(t, "max_tokens") {
        Some(ClaudeStopReason::MaxTokens)
    } else if str_eq(t, "max_time") {
        Some(ClaudeStopReason::StopSequence)
    } else if str_eq(t, "tool_use") {
        Some(ClaudeStopReason::ToolUse)
    } else {
        None
    }
}

/// Token counts of one turn.
#[derive(Clone, Copy, Debug, PartialEq, Eq, Structural)]
pub struct ClaudeUsage {
    pub input_tokens: u32,
    pub output_tokens: u32,
}

/// A whole message of the event-framed backend.
#[derive(Debug, PartialEq)]
pub struct RawPredictResponse {
    pub id: String,
    pub m_type: String,
    pub role: String,
    pub content: Vec<ClaudeContent>,
    pub stop_reason: Option<ClaudeStopReason>,
    pub stop_sequence: Option<String>,
    pub usage: ClaudeUsage,
}

/// A late change to a message: its stop data and usage so far.
#[derive(Clone, Debug, PartialEq)]
pub struct MessageDelta {
    pub stop_reason: Option<ClaudeStopReason>,
    pub stop_sequence: Option<String>,
    pub usage: Option<ClaudeUsage>,
}

/// One decoded stream event, told apart by its `type` tag. The
/// `message_stop` tag is terminal: after it the sequence ends.
#[derive(Debug, PartialEq)]
pub enum StreamRawPredictResponse {
    MessageStart { message: RawPredictResponse },
    ContentBlockStart { index: Option<u32>, content_block: ClaudeContent },
    ContentBlockDelta { index: Option<u32>, delta: ClaudeContent },
    ContentBlockStop { index: Option<u32> },
    MessageDelta { index: Option<u32>, delta: MessageDelta },
    MessageStop,
    Ping,
}

/// The inner error of an error envelope.
#[derive(Clone, Debug, PartialEq)]
pub struct ClaudeError {
    pub e_type: String,
    pub message: String,
}

/// The error envelope of the event-framed backend.
#[derive(Clone, Debug, PartialEq)]
pub struct RawPredictErrorResponse {
    pub e_type: String,
    pub error: ClaudeError,
}

// ---------------------------------------------------------------------
// Shapes
// ---------------------------------------------------------------------

/// The shape of a content block.
pub struct ClaudeContentView {
    pub c_type: Seq<char>,
    pub text: Seq<char>,
}

/// The shape of a whole message.
pub struct RawPredictResponseView {
    pub id: Seq<char>,
    pub m_type: Seq<char>,
    pub role: Seq<char>,
    pub content: Seq<ClaudeContentView>,
    pub stop_reason: Option<ClaudeStopReason>,
    pub stop_sequence: Option<Seq<char>>,
    pub usage: ClaudeUsage,
}

/// The shape of a message delta.
pub struct MessageDeltaView {
    pub stop_reason: Option<ClaudeStopReason>,
    pub stop_sequence: Option<Seq<char>>,
    pub usage: Option<ClaudeUsage>,
}

/// The shape of a stream event.
pub enum StreamEventView {
    MessageStart(RawPredictResponseView),
    ContentBlockStart(Option<u32>, ClaudeContentView),
    ContentBlockDelta(Option<u32>, ClaudeContentView),
    ContentBlockStop(Option<u32>),
    MessageDelta(Option<u32>, MessageDeltaView),
    MessageStop,
    Ping,
}

/// The shape of an error envelope.
pub struct ErrorEnvelopeView {
    pub e_type: Seq<char>,
    pub tag: Seq<char>,
    pub message: Seq<char>,
}

/// The shape of a content block value.
pub open spec fn claude_content_view(x: ClaudeContent) -> ClaudeContentView {
    ClaudeContentView { c_type: x.c_type@, text: x.text@ }
}

/// The shapes of a vector of content blocks.
pub open spec fn contents_views(v: Seq<ClaudeContent>) -> Seq<ClaudeContentView> {
    Seq::new(v.len(), |i: int| claude_content_view(v[i]))
}

/// The shape of a whole message value.
pub open spec fn response_view(x: RawPredictResponse) -> RawPredictResponseView {
    RawPredictResponseView {
        id: x.id@,
        m_type: x.m_type@,
        role: x.role@,
        content: contents_views(x.content@),
        stop_reason: x.stop_reason,
        stop_sequence: view_opt_string(x.stop_sequence),
        usage: x.usage,
    }
}

/// The shape of a message delta value.
pub open spec fn delta_view(x: MessageDelta) -> MessageDeltaView {
    MessageDeltaView {
        stop_reason: x.stop_reason,
        stop_sequence: view_opt_string(x.stop_sequence),
        usage: x.usage,
    }
}

/// The shape of a stream event value.
pub open spec fn event_view(x: StreamRawPredictResponse) -> StreamEventView {
    match x {
        StreamRawPredictResponse::MessageStart { message } => StreamEventView::MessageStart(
            response_view(message),
        ),
        StreamRawPredictResponse::ContentBlockStart { index, content_block } =>
            StreamEventView::ContentBlockStart(index, claude_content_view(content_block)),
        StreamRawPredictResponse::ContentBlockDelta { index, delta } =>
            StreamEventView::ContentBlockDelta(index, claude_content_view(delta)),
        StreamRawPredictResponse::ContentBlockStop { index } => StreamEventView::ContentBlockStop(
            index,
        ),
        StreamRawPredictResponse::MessageDelta { index, delta } => StreamEventView::MessageDelta(
            index,
            delta_view(delta),
        ),
        StreamRawPredictResponse::MessageStop => StreamEventView::MessageStop,
        StreamRawPredictResponse::Ping => StreamEventView::Ping,
    }
}

/// The shape of an error envelope value.
pub open spec fn envelope_view(x: RawPredictErrorResponse) -> ErrorEnvelopeView {
    ErrorEnvelopeView { e_type: x.e_type@, tag: x.error.e_type@, message: x.error.message@ }
}

// ---------------------------------------------------------------------
// Strict decoding
// ---------------------------------------------------------------------

/// Decodes one content block: required `type` and `text`.
pub open spec fn decode_claude_content(j: JsonView) -> Option<ClaudeContentView> {
    match j {
        JsonView::Obj(fs) => match (req_text_field(fs, "type"@), req_text_field(fs, "text"@)) {
            (Some(t), Some(x)) => Some(ClaudeContentView { c_type: t, text: x }),
            _ => None,
        },
        _ => None,
    }
}

/// Decodes the content blocks from `i` on.
pub open spec fn decode_contents_from(es: Seq<JsonView>, i: int) -> Option<Seq<ClaudeContentView>>
    decreases es.len() - i,
{
    if !(0 <= i < es.len()) {
        Some(Seq::empty())
    } else {
        match (decode_claude_content(es[i]), decode_contents_from(es, i + 1)) {
            (Some(p), Some(ps)) => Some(seq![p] + ps),
            _ => None,
        }
    }
}

/// Decodes usage counts: both required.
pub open spec fn decode_claude_usage(j: JsonView) -> Option<ClaudeUsage> {
    match j {
        JsonView::Obj(fs) => match (
            req_u32_field(fs, "input_tokens"@),
            req_u32_field(fs, "output_tokens"@),
        ) {
            (Some(i), Some(o)) => Some(ClaudeUsage { input_tokens: i, output_tokens: o }),
            _ => None,
        },
        _ => None,
    }
}

/// Decodes a whole message.
pub open spec fn decode_raw_response(j: JsonView) -> Option<RawPredictResponseView> {
    match j {
        JsonView::Obj(fs) => {
            let content = match get_field(fs, "content"@) {
                Some(JsonView::Arr(es)) => decode_contents_from(es, 0),
                _ => None,
            };
            let usage = match get_field(fs, "usage"@) {
                Some(u) => decode_claude_usage(u),
                None => None,
            };
            match (
                req_text_field(fs, "id"@),
                req_text_field(fs, "type"@),
                req_text_field(fs, "role"@),
                content,
                lift_tag(opt_text_field(fs, "stop_reason"@), |t: Seq<char>| stop_reason_of(t)),
                opt_text_field(fs, "stop_sequence"@),
                usage,
            ) {
                (Some(id), Some(mt), Some(role), Some(c), Some(sr), Some(ss), Some(u)) => Some(
                    RawPredictResponseView {
                        id,
                        m_type: mt,
                        role,
                        content: c,
                        stop_reason: sr,
                        stop_sequence: ss,
                        usage: u,
                    },
                ),
                _ => None,
            }
        },
        _ => None,
    }
}

/// Decodes a message delta: every field optional.
pub open spec fn decode_message_delta(j: JsonView) -> Option<MessageDeltaView> {
    match j {
        JsonView::Obj(fs) => {
            let usage = match get_field(fs, "usage"@) {
                None => Some(None),
                Some(JsonView::Null) => Some(None),
                Some(u) => match decode_claude_usage(u) {
                    Some(v) => Some(Some(v)),
                    None => None,
                },
            };
            match (
                lift_tag(opt_text_field(fs, "stop_reason"@), |t: Seq<char>| stop_reason_of(t)),
                opt_text_field(fs, "stop_sequence"@),
                usage,
            ) {
                (Some(sr), Some(ss), Some(u)) => Some(
                    MessageDeltaView { stop_reason: sr, stop_sequence: ss, usage: u },
                ),
                _ => None,
            }
        },
        _ => None,
    }
}

/// Decodes one stream event, told apart by its required `type` tag.
pub open spec fn decode_stream_event(j: JsonView) -> Option<StreamEventView> {
    match j {
        JsonView::Obj(fs) => match req_text_field(fs, "type"@) {
            Some(tag) => {
                if tag == "message_start"@ {
                    match get_field(fs, "message"@) {
                        Some(m) => match decode_raw_response(m) {
                            Some(r) => Some(StreamEventView::MessageStart(r)),
                            None => None,
                        },
                        None => None,
                    }
                } else if tag == "content_block_start"@ {
                    match get_field(fs, "content_block"@) {
                        Some(c) => match (
                            crate::decode::opt_u32_field(fs, "index"@),
                            decode_claude_content(c),
                        ) {
                            (Some(ix), Some(cb)) => Some(
                                StreamEventView::ContentBlockStart(ix, cb),
                            ),
                            _ => None,
                        },
                        None => None,
                    }
                } else if tag == "content_block_delta"@ {
                    match get_field(fs, "delta"@) {
                        Some(c) => match (
                            crate::decode::opt_u32_field(fs, "index"@),
                            decode_claude_content(c),
                        ) {
                            (Some(ix), Some(cb)) => Some(
                                StreamEventView::ContentBlockDelta(ix, cb),
                            ),
                            _ => None,
                        },
                        None => None,
                    }
                } else if tag == "content_block_stop"@ {
                    match crate::decode::opt_u32_field(fs, "index"@) {
                        Some(ix) => Some(StreamEventView::ContentBlockStop(ix)),
                        None => None,
                    }
                } else if tag == "message_delta"@ {
                    match get_field(fs, "delta"@) {
                        Some(d) => match (
                            crate::decode::opt_u32_field(fs, "index"@),
                            decode_message_delta(d),
                        ) {
                            (Some(ix), Some(dv)) => Some(StreamEventView::MessageDelta(ix, dv)),
                            _ => None,
                        },
                        None => None,
                    }
                } else if tag == "message_stop"@ {
                    Some(StreamEventView::MessageStop)
                } else if tag == "ping"@ {
                    Some(StreamEventView::Ping)
                } else {
                    None
                }
            },
            None => None,
        },
        _ => None,
    }
}

/// Decodes the error envelope: a required outer `type` and an `error`
/// object with its own `type` tag and `message`.
pub open spec fn decode_claude_envelope(j: JsonView) -> Option<ErrorEnvelopeView> {
    match j {
        JsonView::Obj(fs) => match (req_text_field(fs, "type"@), get_field(fs, "error"@)) {
            (Some(et), Some(JsonView::Obj(es))) => match (
                req_text_field(es, "type"@),
                req_text_field(es, "message"@),
            ) {
                (Some(tag), Some(msg)) => Some(
                    ErrorEnvelopeView { e_type: et, tag, message: msg },
                ),
                _ => None,
            },
            _ => None,
        },
        _ => None,
    }
}

// ---------------------------------------------------------------------
// Executable decoders
// ---------------------------------------------------------------------

/// Decodes one content block, as `decode_claude_content` describes.
pub fn decode_claude_content_x(j: &Json) -> (r: Option<ClaudeContent>)
    ensures
        r matches Some(x) ==> decode_claude_content(jview(*j)) == Some(claude_content_view(x)),
        r is None ==> decode_claude_content(jview(*j)) is None,
{
    match j {
        Json::Obj(fs) => match (req_text_field_x(fs, "type"), req_text_field_x(fs, "text")) {
            (Some(t), Some(x)) => Some(ClaudeContent { c_type: t, text: x }),
            _ => None,
        },
        _ => None,
    }
}

/// Decodes an array of content blocks, as `decode_contents_from`
/// describes.
fn decode_contents_x(es: &Vec<Json>) -> (r: Option<Vec<ClaudeContent>>)
    ensures
        r matches Some(v) ==> decode_contents_from(jview_seq(es@), 0) == Some(contents_views(v@)),
        r is None ==> decode_contents_from(jview_seq(es@), 0) is None,
{
    let ghost esv = jview_seq(es@);
    proof {
        crate::json::lemma_jview_seq_len(es@);
    }
    let mut out: Vec<ClaudeContent> = Vec::new();
    let mut i: usize = 0;
    while i < es.len()
        invariant
            0 <= i <= es@.len(),
            esv == jview_seq(es@),
            esv.len() == es@.len(),
            match decode_contents_from(esv, i as int) {
                Some(tail) => decode_contents_from(esv, 0) == Some(contents_views(out@) + tail),
                None => decode_contents_from(esv, 0) is None,
            },
        decreases es@.len() - i,
    {
        proof {
            lemma_jview_seq_index(es@, i as int);
        }
        match decode_claude_content_x(&es[i]) {
            Some(x) => {
                let ghost old_out = out@;
                let ghost gx = x;
                out.push(x);
                proof {
                    assert(contents_views(out@) =~= contents_views(old_out).push(
                        claude_content_view(gx),
                    ));
                    if let Some(tail2) = decode_contents_from(esv, i + 1) {
                        assert(decode_contents_from(esv, i as int) == Some(
                            seq![claude_content_view(gx)] + tail2,
                        ));
                        assert(contents_views(old_out) + (seq![claude_content_view(gx)] + tail2)
                            =~= contents_views(out@) + tail2);
                    }
                }
            },
            None => {
                return None;
            },
        }
        i = i + 1;
    }
    proof {
        assert(contents_views(out@) + Seq::<ClaudeContentView>::empty() =~= contents_views(out@));
    }
    Some(out)
}

/// Decodes usage counts, as `decode_claude_usage` describes.
pub fn decode_claude_usage_x(j: &Json) -> (r: Option<ClaudeUsage>)
    ensures
        r == decode_claude_usage(jview(*j)),
{
    match j {
        Json::Obj(fs) => match (
            req_u32_field_x(fs, "input_tokens"),
            req_u32_field_x(fs, "output_tokens"),
        ) {
            (Some(i), Some(o)) => Some(ClaudeUsage { input_tokens: i, output_tokens: o }),
            _ => None,
        },
        _ => None,
    }
}

/// Decodes a whole message, as `decode_raw_response` describes.
pub fn decode_raw_response_x(j: &Json) -> (r: Option<RawPredictResponse>)
    ensures
        r matches Some(x) ==> decode_raw_response(jview(*j)) == Some(response_view(x)),
        r is None ==> decode_raw_response(jview(*j)) is None,
{
    match j {
        Json::Obj(fs) => {
            let id = match req_text_field_x(fs, "id") {
                Some(t) => t,
                None => {
                    return None;
                },
            };
            let m_type = match req_text_field_x(fs, "type") {
                Some(t) => t,
                None => {
                    return None;
                },
            };
            let role = match req_text_field_x(fs, "role") {
                Some(t) => t,
                None => {
                    return None;
                },
            };
            let content = match get_field_x(fs, "content") {
                Some(Json::Arr(es)) => match decode_contents_x(es) {
                    Some(c) => c,
                    None => {
                        return None;
                    },
                },
                _ => {
                    return None;
                },
            };
            let stop_reason: Option<ClaudeStopReason> = match opt_text_field_x(
                fs,
                "stop_reason",
            ) {
                None => {
                    return None;
                },
                Some(None) => None,
                Some(Some(t)) => match stop_reason_from(t.as_str()) {
                    Some(v) => Some(v),
                    None => {
                        return None;
                    },
                },
            };
            let stop_sequence = match opt_text_field_x(fs, "stop_sequence") {
                None => {
                    return None;
                },
                Some(o) => o,
            };
            let usage = match get_field_x(fs, "usage") {
                Some(u) => match decode_claude_usage_x(u) {
                    Some(v) => v,
                    None => {
                        return None;
                    },
                },
                None => {
                    return None;
                },
            };
            Some(
                RawPredictResponse {
                    id,
                    m_type,
                    role,
                    content,
                    stop_reason,
                    stop_sequence,
                    usage,
                },
            )
        },
        _ => None,
    }
}

/// Decodes a message delta, as `decode_message_delta` describes.
pub fn decode_message_delta_x(j: &Json) -> (r: Option<MessageDelta>)
    ensures
        r matches Some(x) ==> decode_message_delta(jview(*j)) == Some(delta_view(x)),
        r is None ==> decode_message_delta(jview(*j)) is None,
{
    match j {
        Json::Obj(fs) => {
            let stop_reason: Option<ClaudeStopReason> = match opt_text_field_x(
                fs,
                "stop_reason",
            ) {
                None => {
                    return None;
                },
                Some(None) => None,
                Some(Some(t)) => match stop_reason_from(t.as_str()) {
                    Some(v) => Some(v),
                    None => {
                        return None;
                    },
                },
            };
            let stop_sequence = match opt_text_field_x(fs, "stop_sequence") {
                None => {
                    return None;
                },
                Some(o) => o,
            };
            let usage: Option<ClaudeUsage> = match get_field_x(fs, "usage") {
                None => None,
                Some(Json::Null) => None,
                Some(u) => match decode_claude_usage_x(u) {
                    Some(v) => Some(v),
                    None => {
                        return None;
                    },
                },
            };
            Some(MessageDelta { stop_reason, stop_sequence, usage })
        },
        _ => None,
    }
}

/// Decodes one stream event, as `decode_stream_event` describes.
pub fn decode_stream_event_x(j: &Json) -> (r: Option<StreamRawPredictResponse>)
    ensures
        r matches Some(x) ==> decode_stream_event(jview(*j)) == Some(event_view(x)),
        r is None ==> decode_stream_event(jview(*j)) is None,
{
    match j {
        Json::Obj(fs) => {
            let tag = match req_text_field_x(fs, "type") {
                Some(t) => t,
                None => {
                    return None;
                },
            };
            if str_eq(tag.as_str(), "message_start") {
                match get_field_x(fs, "message") {
                    Some(m) => match decode_raw_response_x(m) {
                        Some(r) => Some(StreamRawPredictResponse::MessageStart { message: r }),
                        None => None,
                    },
                    None => None,
                }
            } else if str_eq(tag.as_str(), "content_block_start") {
                match get_field_x(fs, "content_block") {
                    Some(c) => match (
                        crate::decode::opt_u32_field_x(fs, "index"),
                        decode_claude_content_x(c),
                    ) {
                        (Some(ix), Some(cb)) => Some(
                            StreamRawPredictResponse::ContentBlockStart {
                                index: ix,
                                content_block: cb,
                            },
                        ),
                        _ => None,
                    },
                    None => None,
                }
            } else if str_eq(tag.as_str(), "content_block_delta") {
                match get_field_x(fs, "delta") {
                    Some(c) => match (
                        crate::decode::opt_u32_field_x(fs, "index"),
                        decode_claude_content_x(c),
                    ) {
                        (Some(ix), Some(cb)) => Some(
                            StreamRawPredictResponse::ContentBlockDelta { index: ix, delta: cb },
                        ),
                        _ => None,
                    },
                    None => None,
                }
            } else if str_eq(tag.as_str(), "content_block_stop") {
                match crate::decode::opt_u32_field_x(fs, "index") {
                    Some(ix) => Some(StreamRawPredictResponse::ContentBlockStop { index: ix }),
                    None => None,
                }
            } else if str_eq(tag.as_str(), "message_delta") {
                match get_field_x(fs, "delta") {
                    Some(d) => match (
                        crate::decode::opt_u32_field_x(fs, "index"),
                        decode_message_delta_x(d),
                    ) {
                        (Some(ix), Some(dv)) => Some(
                            StreamRawPredictResponse::MessageDelta { index: ix, delta: dv },
                        ),
                        _ => None,
                    },
                    None => None,
                }
            } else if str_eq(tag.as_str(), "message_stop") {
                Some(StreamRawPredictResponse::MessageStop)
            } else if str_eq(tag.as_str(), "ping") {
                Some(StreamRawPredictResponse::Ping)
            } else {
                None
            }
        },
        _ => None,
    }
}

/// Decodes the error envelope, as `decode_claude_envelope` describes.
pub fn decode_claude_envelope_x(j: &Json) -> (r: Option<RawPredictErrorResponse>)
    ensures
        r matches Some(x) ==> decode_claude_envelope(jview(*j)) == Some(envelope_view(x)),
        r is None ==> decode_claude_envelope(jview(*j)) is None,
{
    match j {
        Json::Obj(fs) => {
            let e_type = match req_text_field_x(fs, "type") {
                Some(t) => t,
                None => {
                    return None;
                },
            };
            match get_field_x(fs, "error") {
                Some(Json::Obj(es)) => match (
                    req_text_field_x(es, "type"),
                    req_text_field_x(es, "message"),
                ) {
                    (Some(tag), Some(msg)) => Some(
                        RawPredictErrorResponse {
                            e_type,
                            error: ClaudeError { e_type: tag, message: msg },
                        },
                    ),
                    _ => None,
                },
                _ => None,
            }
        },
        _ => None,
    }
}

} // verus!
