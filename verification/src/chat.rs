//! The array-framed stream decoder of the chat variant: the same
//! framing as the main decoder, emitting chat response objects.

use vstd::prelude::*;

use crate::chat_response::{
    chat_response_view, decode_chat_response, decode_chat_response_x, GeminiChatResponse,
};
use crate::error::{GeminiError, spec_gemini_error_from_status, gemini_error_from_status};
use crate::framing::{frame_step, FrameEvent, FrameOut, Framer, Phase};
use crate::gemini::envelope_outcome;
use crate::json::parse_text;
use crate::json_exec::json_parse_chars;
use crate::text::{str_to_chars, utf8_to_string};

verus! {

/// What one step of the chat stream decoder produced.
pub struct ChatStep {
    pub item: Option<Result<GeminiChatResponse, GeminiError>>,
    pub done: bool,
}

/// What a complete textual unit decodes to for the chat variant.
pub open spec fn chat_unit_outcome(u: Seq<char>) -> Option<crate::chat_response::ChatResponseView> {
    match parse_text(u) {
        Some(jv) => decode_chat_response(jv),
        None => None,
    }
}

/// Everything one chat decoder step guarantees.
pub open spec fn chat_step_post(
    ph0: Phase,
    pd0: Seq<char>,
    text: Seq<char>,
    ph1: Phase,
    pd1: Seq<char>,
    item: Option<Result<GeminiChatResponse, GeminiError>>,
    done: bool,
) -> bool {
    let (p2, b2, ev) = frame_step(ph0, pd0, text);
    &&& done == (ph1 is Ended)
    &&& match ev {
        FrameEvent::Quiet => ph1 == p2 && pd1 == b2 && item is None,
        FrameEvent::Finished => ph1 == p2 && pd1 == b2 && item is None && ph1 is Ended,
        FrameEvent::Unit(u) => match chat_unit_outcome(u) {
            Some(rv) => ph1 == p2 && pd1 == b2 && (item matches Some(Ok(x))
                && chat_response_view(x) == rv),
            None => ph1 is Ended && pd1 == b2 && (item matches Some(Err(e)) && e is ParseError),
        },
        FrameEvent::Envelope(inner) => ph1 is Ended && pd1 == b2 && match envelope_outcome(
            inner,
        ) {
            Some(erv) => item == Some(
                Err::<GeminiChatResponse, GeminiError>(spec_gemini_error_from_status(erv.code)),
            ),
            None => item matches Some(Err(e)) && e is ParseError,
        },
    }
}

/// The chat stream decoder.
#[derive(Debug)]
pub struct Chat {
    pub framer: Framer,
}

impl Chat {
    /// A fresh chat stream decoder.
    pub fn new() -> (r: Chat)
        ensures
            r.framer.phase == Phase::AwaitingFirst,
            r.framer.pending@ == Seq::<char>::empty(),
    {
        Chat { framer: Framer::new() }
    }

    /// Whether the sequence has ended.
    pub fn is_done(&self) -> (r: bool)
        ensures
            r == (self.framer.phase is Ended),
    {
        self.framer.phase == Phase::Ended
    }

    /// Processes one chunk of text, as `chat_step_post` describes.
    pub fn push_chunk(&mut self, chunk: &Vec<char>) -> (r: ChatStep)
        ensures
            chat_step_post(
                old(self).framer.phase,
                old(self).framer.pending@,
                chunk@,
                final(self).framer.phase,
                final(self).framer.pending@,
                r.item,
                r.done,
            ),
    {
        let out = self.framer.step(chunk);
        match out {
            FrameOut::Quiet => ChatStep { item: None, done: self.framer.phase == Phase::Ended },
            FrameOut::Finished => ChatStep { item: None, done: true },
            FrameOut::Unit(u) => {
                match json_parse_chars(&u) {
                    Some(jv) => match decode_chat_response_x(&jv) {
                        Some(x) => ChatStep {
                            item: Some(Ok(x)),
                            done: self.framer.phase == Phase::Ended,
                        },
                        None => {
                            self.framer.phase = Phase::Ended;
                            ChatStep {
                                item: Some(
                                    Err(
                                        GeminiError::ParseError(
                                            error_text("response does not fit the schema"),
                                        ),
                                    ),
                                ),
                                done: true,
                            }
                        },
                    },
                    None => {
                        // The framing layer releases a unit only when it
                        // parses, so this cannot be reached.
                        proof {
                            assert(false);
                        }
                        self.framer.phase = Phase::Ended;
                        ChatStep { item: None, done: true }
                    },
                }
            },
            FrameOut::Envelope(inner) => {
                match json_parse_chars(&inner) {
                    Some(jv) => match crate::content::decode_error_response_x(&jv) {
                        Some(x) => ChatStep {
                            item: Some(Err(gemini_error_from_status(x.error.code))),
                            done: true,
                        },
                        None => ChatStep {
                            item: Some(
                                Err(
                                    GeminiError::ParseError(
                                        error_text("error envelope does not fit the schema"),
                                    ),
                                ),
                            ),
                            done: true,
                        },
                    },
                    None => ChatStep {
                        item: Some(
                            Err(
                                GeminiError::ParseError(
                                    error_text("error envelope is not valid JSON"),
                                ),
                            ),
                        ),
                        done: true,
                    },
                }
            },
        }
    }

    /// Processes one chunk of raw bytes, as the main decoder does.
    pub fn push_bytes(&mut self, bytes: Vec<u8>) -> (r: ChatStep)
        ensures
            vstd::utf8::valid_utf8(bytes@) ==> chat_step_post(
                old(self).framer.phase,
                old(self).framer.pending@,
                vstd::utf8::decode_utf8(bytes@),
                final(self).framer.phase,
                final(self).framer.pending@,
                r.item,
                r.done,
            ),
            !vstd::utf8::valid_utf8(bytes@) ==> final(self).framer.phase is Ended && r.done && (
            r.item matches Some(Err(e)) && e is ParseError),
    {
        match utf8_to_string(bytes) {
            Some(s) => {
                let chunk = str_to_chars(s.as_str());
                self.push_chunk(&chunk)
            },
            None => {
                self.framer.phase = Phase::Ended;
                ChatStep {
                    item: Some(
                        Err(GeminiError::ParseError(error_text("chunk is not valid UTF-8"))),
                    ),
                    done: true,
                }
            },
        }
    }
}

/// Decodes a whole buffered chat response body.
pub fn decode_chat_body(body: &str) -> (r: Result<GeminiChatResponse, GeminiError>)
    ensures
        ({
            let o = chat_unit_outcome(body@);
            match r {
                Ok(x) => o == Some(chat_response_view(x)),
                Err(e) => o is None && e is ParseError,
            }
        }),
{
    let cs = str_to_chars(body);
    match json_parse_chars(&cs) {
        Some(jv) => match decode_chat_response_x(&jv) {
            Some(x) => Ok(x),
            None => Err(GeminiError::ParseError(error_text("response does not fit the schema"))),
        },
        None => Err(GeminiError::ParseError(error_text("response is not valid JSON"))),
    }
}

/// An error description as an owned string.
fn error_text(msg: &str) -> (r: String)
    ensures
        r@ == msg@,
{
    let cs = str_to_chars(msg);
    crate::text::chars_to_string(&cs)
}

} // verus!
