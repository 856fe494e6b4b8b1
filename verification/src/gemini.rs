//! The array-framed stream decoder: consumes arbitrarily fragmented
//! chunks, reassembles units split across chunk boundaries, decodes
//! each unit strictly, maps error envelopes into the error taxonomy,
//! and ends the sequence on the closing token or on a fatal decode
//! failure.

use vstd::prelude::*;

use crate::content::{
    decode_error_response, decode_response, decode_response_x, decode_error_response_x,
    response_view, GenerateContentResponse,
};
use crate::error::{spec_gemini_error_from_status, gemini_error_from_status, GeminiError};
use crate::framing::{frame_step, FrameEvent, FrameOut, Framer, Phase};
use crate::json::parse_text;
use crate::json_exec::json_parse_chars;
use crate::text::{str_to_chars, utf8_to_string};

verus! {

/// What one step of the stream decoder produced: at most one item, and
/// whether the sequence is over.
pub struct GeminiStep {
    pub item: Option<Result<GenerateContentResponse, GeminiError>>,
    pub done: bool,
}

/// What a complete textual unit decodes to: the success object, or a
/// fatal mismatch.
pub open spec fn unit_outcome(u: Seq<char>) -> Option<crate::content::ResponseView> {
    match parse_text(u) {
        Some(jv) => decode_response(jv),
        None => None,
    }
}

/// What an envelope's inner content decodes to: the error envelope, or
/// a fatal mismatch.
pub open spec fn envelope_outcome(inner: Seq<char>) -> Option<crate::content::ErrorResponseView> {
    match parse_text(inner) {
        Some(jv) => decode_error_response(jv),
        None => None,
    }
}

/// Everything one decoder step guarantees, relating the old state, the
/// chunk text, the new state and the step's output.
pub open spec fn gemini_step_post(
    ph0: Phase,
    pd0: Seq<char>,
    text: Seq<char>,
    ph1: Phase,
    pd1: Seq<char>,
    item: Option<Result<GenerateContentResponse, GeminiError>>,
    done: bool,
) -> bool {
    let (p2, b2, ev) = frame_step(ph0, pd0, text);
    &&& done == (ph1 is Ended)
    &&& match ev {
        FrameEvent::Quiet => ph1 == p2 && pd1 == b2 && item is None,
        FrameEvent::Finished => ph1 == p2 && pd1 == b2 && item is None && ph1 is Ended,
        FrameEvent::Unit(u) => match unit_outcome(u) {
            Some(rv) => ph1 == p2 && pd1 == b2 && (item matches Some(Ok(x)) && response_view(x)
                == rv),
            None => ph1 is Ended && pd1 == b2 && (item matches Some(Err(e)) && e is ParseError),
        },
        FrameEvent::Envelope(inner) => ph1 is Ended && pd1 == b2 && match envelope_outcome(
            inner,
        ) {
            Some(erv) => item == Some(
                Err::<GenerateContentResponse, GeminiError>(
                    spec_gemini_error_from_status(erv.code),
                ),
            ),
            None => item matches Some(Err(e)) && e is ParseError,
        },
    }
}

/// The array-framed stream decoder for success objects.
#[derive(Debug)]
pub struct Gemini {
    pub framer: Framer,
}

impl Gemini {
    /// A fresh stream decoder.
    pub fn new() -> (r: Gemini)
        ensures
            r.framer.phase == Phase::AwaitingFirst,
            r.framer.pending@ == Seq::<char>::empty(),
    {
        Gemini { framer: Framer::new() }
    }

    /// Whether the sequence has ended: no further item will ever be
    /// produced.
    pub fn is_done(&self) -> (r: bool)
        ensures
            r == (self.framer.phase is Ended),
    {
        self.framer.phase == Phase::Ended
    }

    /// Processes one chunk of text, as `gemini_step_post` describes.
    pub fn push_chunk(&mut self, chunk: &Vec<char>) -> (r: GeminiStep)
        ensures
            gemini_step_post(
                old(self).framer.phase,
                old(self).framer.pending@,
                chunk@,
                final(self).framer.phase,
                final(self).framer.pending@,
                r.item,
                r.done,
            ),
    {
        let out = self.framer.step(chunk);
        match out {
            FrameOut::Quiet => GeminiStep {
                item: None,
                done: self.framer.phase == Phase::Ended,
            },
            FrameOut::Finished => GeminiStep { item: None, done: true },
            FrameOut::Unit(u) => {
                match json_parse_chars(&u) {
                    Some(jv) => match decode_response_x(&jv) {
                        Some(x) => GeminiStep {
                            item: Some(Ok(x)),
                            done: self.framer.phase == Phase::Ended,
                        },
                        None => {
                            self.framer.phase = Phase::Ended;
                            GeminiStep {
                                item: Some(
                                    Err(
                                        GeminiError::ParseError(
                                            parse_error_text("response does not fit the schema"),
                                        ),
                                    ),
                                ),
                                done: true,
                            }
                        },
                    },
                    None => {
                        // The framing layer releases a unit only when it
                        // parses, so this cannot be reached.
                        proof {
                            assert(false);
                        }
                        self.framer.phase = Phase::Ended;
                        GeminiStep { item: None, done: true }
                    },
                }
            },
            FrameOut::Envelope(inner) => {
                match json_parse_chars(&inner) {
                    Some(jv) => match decode_error_response_x(&jv) {
                        Some(x) => GeminiStep {
                            item: Some(Err(gemini_error_from_status(x.error.code))),
                            done: true,
                        },
                        None => GeminiStep {
                            item: Some(
                                Err(
                                    GeminiError::ParseError(
                                        parse_error_text("error envelope does not fit the schema"),
                                    ),
                                ),
                            ),
                            done: true,
                        },
                    },
                    None => GeminiStep {
                        item: Some(
                            Err(
                                GeminiError::ParseError(
                                    parse_error_text("error envelope is not valid JSON"),
                                ),
                            ),
                        ),
                        done: true,
                    },
                }
            },
        }
    }

    /// Processes one chunk of raw bytes: text that is not valid UTF-8
    /// ends the sequence with a parse error; valid text is processed as
    /// `gemini_step_post` describes.
    pub fn push_bytes(&mut self, bytes: Vec<u8>) -> (r: GeminiStep)
        ensures
            vstd::utf8::valid_utf8(bytes@) ==> gemini_step_post(
                old(self).framer.phase,
                old(self).framer.pending@,
                vstd::utf8::decode_utf8(bytes@),
                final(self).framer.phase,
                final(self).framer.pending@,
                r.item,
                r.done,
            ),
            !vstd::utf8::valid_utf8(bytes@) ==> final(self).framer.phase is Ended && r.done && (
            r.item matches Some(Err(e)) && e is ParseError),
    {
        match utf8_to_string(bytes) {
            Some(s) => {
                let chunk = str_to_chars(s.as_str());
                self.push_chunk(&chunk)
            },
            None => {
                self.framer.phase = Phase::Ended;
                GeminiStep {
                    item: Some(
                        Err(GeminiError::ParseError(parse_error_text("chunk is not valid UTF-8"))),
                    ),
                    done: true,
                }
            },
        }
    }
}

/// Decodes a whole buffered response body into the success object;
/// text that is not valid JSON or does not fit the schema is a parse
/// error.
pub fn decode_generate_content(body: &str) -> (r: Result<GenerateContentResponse, GeminiError>)
    ensures
        ({
            let o = unit_outcome(body@);
            match r {
                Ok(x) => o == Some(response_view(x)),
                Err(e) => o is None && e is ParseError,
            }
        }),
{
    let cs = str_to_chars(body);
    match json_parse_chars(&cs) {
        Some(jv) => match decode_response_x(&jv) {
            Some(x) => Ok(x),
            None => Err(
                GeminiError::ParseError(parse_error_text("response does not fit the schema")),
            ),
        },
        None => Err(GeminiError::ParseError(parse_error_text("response is not valid JSON"))),
    }
}

/// A parse-error description as an owned string.
fn parse_error_text(msg: &str) -> (r: String)
    ensures
        r@ == msg@,
{
    let cs = str_to_chars(msg);
    crate::text::chars_to_string(&cs)
}

} // verus!
