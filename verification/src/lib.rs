//! Incremental stream decoders for two chunked response wire formats:
//! a JSON-array streaming format and a Server-Sent-Events format.
//!
//! The decoders consume arbitrarily fragmented text chunks and produce a
//! well-ordered sequence of typed results, reassembling JSON objects that
//! were split across chunk boundaries and mapping error envelopes into a
//! closed error taxonomy.

use vstd::prelude::*;

pub mod chat;
pub mod chat_request;
pub mod chat_response;
pub mod claude;
pub mod claude_types;
pub mod content;
pub mod decode;
pub mod encode;
pub mod error;
pub mod framing;
pub mod gemini;
pub mod gemini_model;
pub mod json;
pub mod json_exec;
pub mod json_proofs;
pub mod laws;
pub mod model;
pub mod schema;
pub mod text;
pub mod tools;

pub use error::{ClaudeError, ClientError, GeminiError};
pub use chat::{Chat, ChatStep};
pub use claude::{Claude, ClaudeStep, SseRecord};
pub use gemini::{Gemini, GeminiStep};

verus! {

/// Parses a sequence of decimal digits as a `u32`.
/// Returns `None` when the text is empty, holds a non-digit character,
/// or the value does not fit.
pub fn parse_u32_digits(s: &Vec<char>) -> (r: Option<u32>)
    ensures
        r == spec_parse_u32(s@),
{
    if s.len() == 0 {
        return None;
    }
    let mut acc: u32 = 0;
    let mut i: usize = 0;
    while i < s.len()
        invariant
            0 <= i <= s@.len(),
            s@.len() > 0,
            forall|j: int| 0 <= j < i ==> is_digit(#[trigger] s@[j]),
            acc == digits_value(s@.subrange(0, i as int)),
            digits_value(s@.subrange(0, i as int)) <= u32::MAX,
        decreases s@.len() - i,
    {
        let c = s[i];
        if !(c >= '0' && c <= '9') {
            assert(!is_digit(s@[i as int]));
            assert(spec_parse_u32(s@) is None);
            return None;
        }
        let d: u32 = (c as u32) - ('0' as u32);
        proof {
            lemma_digits_value_step(s@, i as int);
        }
        if acc > u32::MAX / 10 || (acc == u32::MAX / 10 && d > u32::MAX % 10) {
            proof {
                if forall|j: int| 0 <= j < s@.len() ==> is_digit(#[trigger] s@[j]) {
                    lemma_digits_value_monotone(s@, i as int + 1);
                }
            }
            return None;
        }
        acc = acc * 10 + d;
        i = i + 1;
    }
    assert(s@.subrange(0, s@.len() as int) =~= s@);
    Some(acc)
}

/// A character in `'0' ..= '9'`.
pub open spec fn is_digit(c: char) -> bool {
    '0' <= c && c <= '9'
}

/// The numeric value of a digit character.
pub open spec fn digit_value(c: char) -> int {
    c as int - '0' as int
}

/// The value of a digit string read in base 10; unconstrained digits
/// contribute through `digit_value` only when each character is a digit.
pub open spec fn digits_value(s: Seq<char>) -> int
    decreases s.len(),
{
    if s.len() == 0 {
        0
    } else {
        digits_value(s.drop_last()) * 10 + digit_value(s.last())
    }
}

/// What `parse_u32_digits` returns: the base-10 value of the digit string,
/// if every character is a digit and the value fits in a `u32`.
pub open spec fn spec_parse_u32(s: Seq<char>) -> Option<u32> {
    if s.len() > 0 && (forall|j: int| 0 <= j < s.len() ==> is_digit(#[trigger] s[j]))
        && digits_value(s) <= u32::MAX {
        Some(digits_value(s) as u32)
    } else {
        None
    }
}

proof fn lemma_digits_value_step(s: Seq<char>, i: int)
    requires
        0 <= i < s.len(),
    ensures
        digits_value(s.subrange(0, i + 1)) == digits_value(s.subrange(0, i)) * 10 + digit_value(
            s[i],
        ),
{
    let t = s.subrange(0, i + 1);
    assert(t.drop_last() =~= s.subrange(0, i));
    assert(t.last() == s[i]);
}

/// A digit string has a nonnegative value.
proof fn lemma_digits_value_nonneg(s: Seq<char>)
    requires
        forall|j: int| 0 <= j < s.len() ==> is_digit(#[trigger] s[j]),
    ensures
        digits_value(s) >= 0,
    decreases s.len(),
{
    if s.len() > 0 {
        assert(s.drop_last() =~= s.subrange(0, s.len() - 1));
        lemma_digits_value_nonneg(s.drop_last());
    }
}

/// Appending digits never lowers the value of a digit string.
proof fn lemma_digits_value_monotone(s: Seq<char>, i: int)
    requires
        0 <= i <= s.len(),
        forall|j: int| 0 <= j < s.len() ==> is_digit(#[trigger] s[j]),
    ensures
        digits_value(s) >= digits_value(s.subrange(0, i)),
    decreases s.len() - i,
{
    if i < s.len() {
        lemma_digits_value_step(s, i);
        lemma_digits_value_nonneg(s.subrange(0, i));
        lemma_digits_value_monotone(s, i + 1);
    } else {
        assert(s.subrange(0, s.len() as int) =~= s);
    }
}

} // verus!
