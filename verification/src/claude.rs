//! The event-framed stream decoder: consumes Server-Sent-Event
//! records, skips the opening signal, decodes each message's `data`
//! payload, maps error envelopes through the fixed tag table, and ends
//! the sequence after the terminal stop event or on any decode
//! failure.

use vstd::prelude::*;

use crate::claude_types::{
    decode_claude_envelope, decode_stream_event, decode_claude_envelope_x, decode_stream_event_x,
    event_view, RawPredictResponse, StreamEventView, StreamRawPredictResponse,
};
use crate::error::{claude_tag_selects, claude_error_from_tag, ClaudeError};
use crate::json::parse_text;
use crate::json_exec::json_parse_chars;
use crate::text::str_to_chars;

verus! {

/// Where an event stream stands.
#[derive(Clone, Copy, Debug, PartialEq, Eq, Structural)]
pub enum EventPhase {
    Open,
    Streaming,
    Stopped,
}

/// One record of the event stream, as the transport hands it over: an
/// opening signal, or a message with its payload and event tag.
#[derive(Debug)]
pub enum SseRecord {
    Open,
    Message { data: String, event_type: String },
}

/// What one step of the event decoder produced.
pub struct ClaudeStep {
    pub item: Option<Result<StreamRawPredictResponse, ClaudeError>>,
    pub done: bool,
}

/// What a message payload decodes to: a stream event, an error
/// envelope, or neither.
pub enum PayloadOutcome {
    Event(StreamEventView),
    Envelope(Seq<char>, Seq<char>),
    Neither,
}

/// Classifies a message payload: the primary schema first, the error
/// envelope only after the primary fails.
pub open spec fn payload_outcome(data: Seq<char>) -> PayloadOutcome {
    match parse_text(data) {
        Some(jv) => match decode_stream_event(jv) {
            Some(ev) => PayloadOutcome::Event(ev),
            None => match decode_claude_envelope(jv) {
                Some(env) => PayloadOutcome::Envelope(env.tag, env.message),
                None => PayloadOutcome::Neither,
            },
        },
        None => PayloadOutcome::Neither,
    }
}

/// Everything one event decoder step guarantees.
pub open spec fn claude_step_post(
    ph0: EventPhase,
    rec_data: Option<Seq<char>>,
    ph1: EventPhase,
    item: Option<Result<StreamRawPredictResponse, ClaudeError>>,
    done: bool,
) -> bool {
    &&& done == (ph1 is Stopped)
    &&& if ph0 is Stopped {
        ph1 is Stopped && item is None
    } else {
        match rec_data {
            None => ph1 is Streaming && item is None,
            Some(data) => match payload_outcome(data) {
                PayloadOutcome::Event(ev) => (item matches Some(Ok(x)) && event_view(x) == ev)
                    && ph1 == (if ev is MessageStop {
                    EventPhase::Stopped
                } else {
                    EventPhase::Streaming
                }),
                PayloadOutcome::Envelope(tag, msg) => ph1 is Stopped && (item matches Some(Err(e))
                    && claude_tag_selects(tag, msg, e)),
                PayloadOutcome::Neither => ph1 is Stopped && (item matches Some(Err(e))
                    && e is ParseError),
            },
        }
    }
}

/// The event stream decoder.
#[derive(Debug)]
pub struct Claude {
    pub phase: EventPhase,
}

impl Claude {
    /// A fresh event decoder, before the opening signal.
    pub fn new() -> (r: Claude)
        ensures
            r.phase == EventPhase::Open,
    {
        Claude { phase: EventPhase::Open }
    }

    /// Whether the sequence has ended.
    pub fn is_done(&self) -> (r: bool)
        ensures
            r == (self.phase is Stopped),
    {
        self.phase == EventPhase::Stopped
    }

    /// Processes one record, as `claude_step_post` describes: opening
    /// signals are skipped; a message's payload is decoded as a stream
    /// event first and as an error envelope only after that fails; a
    /// payload matching neither shape is fatal.
    pub fn step(&mut self, rec: &SseRecord) -> (r: ClaudeStep)
        ensures
            claude_step_post(
                old(self).phase,
                match *rec {
                    SseRecord::Open => None,
                    SseRecord::Message { data, .. } => Some(data@),
                },
                final(self).phase,
                r.item,
                r.done,
            ),
    {
        if self.phase == EventPhase::Stopped {
            return ClaudeStep { item: None, done: true };
        }
        match rec {
            SseRecord::Open => {
                self.phase = EventPhase::Streaming;
                ClaudeStep { item: None, done: false }
            },
            SseRecord::Message { data, .. } => {
                let cs = str_to_chars(data.as_str());
                match json_parse_chars(&cs) {
                    Some(jv) => match decode_stream_event_x(&jv) {
                        Some(x) => {
                            let is_stop = match &x {
                                StreamRawPredictResponse::MessageStop => true,
                                _ => false,
                            };
                            self.phase = if is_stop {
                                EventPhase::Stopped
                            } else {
                                EventPhase::Streaming
                            };
                            ClaudeStep { item: Some(Ok(x)), done: is_stop }
                        },
                        None => {
                            self.phase = EventPhase::Stopped;
                            match decode_claude_envelope_x(&jv) {
                                Some(env) => ClaudeStep {
                                    item: Some(
                                        Err(
                                            claude_error_from_tag(
                                                env.error.e_type.as_str(),
                                                env.error.message,
                                            ),
                                        ),
                                    ),
                                    done: true,
                                },
                                None => ClaudeStep {
                                    item: Some(
                                        Err(
                                            ClaudeError::ParseError(
                                                claude_error_text(
                                                    "message fits neither known shape",
                                                ),
                                            ),
                                        ),
                                    ),
                                    done: true,
                                },
                            }
                        },
                    },
                    None => {
                        self.phase = EventPhase::Stopped;
                        ClaudeStep {
                            item: Some(
                                Err(
                                    ClaudeError::ParseError(
                                        claude_error_text("message is not valid JSON"),
                                    ),
                                ),
                            ),
                            done: true,
                        }
                    },
                }
            },
        }
    }
}

/// Decodes a whole buffered response body into the message object.
pub fn decode_raw_predict(body: &str) -> (r: Result<RawPredictResponse, ClaudeError>)
    ensures
        ({
            match r {
                Ok(x) => ({
                    &&& parse_text(body@) matches Some(jv)
                    &&& crate::claude_types::decode_raw_response(parse_text(body@)->Some_0)
                        == Some(crate::claude_types::response_view(x))
                }),
                Err(e) => e is ParseError && (parse_text(body@) is None
                    || crate::claude_types::decode_raw_response(parse_text(body@)->Some_0)
                    is None),
            }
        }),
{
    let cs = str_to_chars(body);
    match json_parse_chars(&cs) {
        Some(jv) => match crate::claude_types::decode_raw_response_x(&jv) {
            Some(x) => Ok(x),
            None => Err(
                ClaudeError::ParseError(claude_error_text("response does not fit the schema")),
            ),
        },
        None => Err(ClaudeError::ParseError(claude_error_text("response is not valid JSON"))),
    }
}

/// An error description as an owned string.
fn claude_error_text(msg: &str) -> (r: String)
    ensures
        r@ == msg@,
{
    let cs = str_to_chars(msg);
    crate::text::chars_to_string(&cs)
}

} // verus!
