//! The stream decoders' governing properties, stated and proved over
//! the framing and step specifications.

use vstd::prelude::*;

use crate::claude::claude_step_post;
use crate::claude_types::StreamRawPredictResponse;
use crate::content::GenerateContentResponse;
use crate::error::{spec_gemini_error_from_status, ClaudeError, GeminiError};
use crate::framing::{
    envelope_content, envelope_shaped, frame_step, join_from, lines_from, FrameEvent, Phase,
};
use crate::gemini::{envelope_outcome, gemini_step_post};

verus! {

/// Idempotent termination: once the sequence has ended, a step never
/// emits another item and the phase stays ended, whatever text
/// arrives.
pub proof fn lemma_idempotent_termination(
    pd0: Seq<char>,
    text: Seq<char>,
    ph1: Phase,
    pd1: Seq<char>,
    item: Option<Result<GenerateContentResponse, GeminiError>>,
    done: bool,
)
    requires
        gemini_step_post(Phase::Ended, pd0, text, ph1, pd1, item, done),
    ensures
        item is None,
        ph1 is Ended,
        done,
{
}

/// Idempotent termination for the chat variant: once the sequence has
/// ended, a step never emits another item.
pub proof fn lemma_chat_idempotent_termination(
    pd0: Seq<char>,
    text: Seq<char>,
    ph1: Phase,
    pd1: Seq<char>,
    item: Option<Result<crate::chat_response::GeminiChatResponse, GeminiError>>,
    done: bool,
)
    requires
        crate::chat::chat_step_post(Phase::Ended, pd0, text, ph1, pd1, item, done),
    ensures
        item is None,
        ph1 is Ended,
        done,
{
}

/// Idempotent termination for the event decoder: once stopped, a step
/// never emits another item, whatever record arrives.
pub proof fn lemma_event_idempotent_termination(
    rec_data: Option<Seq<char>>,
    ph1: crate::claude::EventPhase,
    item: Option<Result<StreamRawPredictResponse, ClaudeError>>,
    done: bool,
)
    requires
        claude_step_post(crate::claude::EventPhase::Stopped, rec_data, ph1, item, done),
    ensures
        item is None,
        ph1 is Stopped,
        done,
{
}

/// Error precedence: a self-contained `[` … `]` chunk whose inner
/// content matches the error schema always yields the mapped error
/// and ends the sequence; no success item is ever emitted for it.
pub proof fn lemma_error_precedence(
    ph0: Phase,
    pd0: Seq<char>,
    text: Seq<char>,
    erv: crate::content::ErrorResponseView,
    ph1: Phase,
    pd1: Seq<char>,
    item: Option<Result<GenerateContentResponse, GeminiError>>,
    done: bool,
)
    requires
        !(ph0 is Ended),
        envelope_shaped(lines_from(pd0 + text, 0)),
        envelope_outcome(envelope_content(join_from(lines_from(pd0 + text, 0), 0))) == Some(erv),
        gemini_step_post(ph0, pd0, text, ph1, pd1, item, done),
    ensures
        item == Some(
            Err::<GenerateContentResponse, GeminiError>(spec_gemini_error_from_status(erv.code)),
        ),
        ph1 is Ended,
        done,
{
}

/// One run of the framing layer over a sequence of chunks: the final
/// state and the events in order.
pub open spec fn frame_run(ph: Phase, pd: Seq<char>, chunks: Seq<Seq<char>>) -> (
    Phase,
    Seq<char>,
    Seq<FrameEvent>,
)
    decreases chunks.len(),
{
    if chunks.len() == 0 {
        (ph, pd, Seq::empty())
    } else {
        let (p1, b1, e1) = frame_step(ph, pd, chunks[0]);
        let (p2, b2, es) = frame_run(p1, b1, chunks.drop_first());
        (p2, b2, seq![e1] + es)
    }
}

/// The event one chunk produces on its own, from a clean streaming
/// state.
pub open spec fn chunk_event(c: Seq<char>) -> FrameEvent {
    frame_step(Phase::Streaming, Seq::empty(), c).2
}

/// A framing step from a live phase with nothing pending produces the
/// same event whatever the live phase is, and a released unit leaves
/// the stream live with nothing pending.
proof fn lemma_step_phase_independent(ph: Phase, c: Seq<char>)
    requires
        !(ph is Ended),
    ensures
        frame_step(ph, Seq::empty(), c).2 == chunk_event(c),
        chunk_event(c) is Unit ==> !(frame_step(ph, Seq::empty(), c).0 is Ended) && frame_step(
            ph,
            Seq::empty(),
            c,
        ).1 == Seq::<char>::empty(),
{
    assert(Seq::<char>::empty() + c =~= c);
}

/// Order preservation: a run over well-formed content chunks, each of
/// which releases one unit on its own, yields exactly those units, one
/// per chunk, in input order, with no reordering and no duplication.
pub proof fn lemma_order_preservation(ph0: Phase, chunks: Seq<Seq<char>>)
    requires
        !(ph0 is Ended),
        forall|i: int| 0 <= i < chunks.len() ==> (#[trigger] chunk_event(chunks[i])) is Unit,
    ensures
        frame_run(ph0, Seq::empty(), chunks).2 == Seq::new(
            chunks.len(),
            |i: int| chunk_event(chunks[i]),
        ),
    decreases chunks.len(),
{
    if chunks.len() == 0 {
        assert(frame_run(ph0, Seq::empty(), chunks).2 =~= Seq::new(
            chunks.len(),
            |i: int| chunk_event(chunks[i]),
        ));
    } else {
        let c0 = chunks[0];
        lemma_step_phase_independent(ph0, c0);
        let (p1, b1, e1) = frame_step(ph0, Seq::empty(), c0);
        assert(chunk_event(c0) is Unit);
        lemma_order_preservation(p1, chunks.drop_first());
        assert(forall|i: int|
            0 <= i < chunks.drop_first().len() ==> chunks.drop_first()[i] == chunks[i + 1]);
        assert(frame_run(ph0, Seq::empty(), chunks).2 =~= Seq::new(
            chunks.len(),
            |i: int| chunk_event(chunks[i]),
        ));
    }
}

/// In text without a line feed, the search for one reaches the end.
proof fn lemma_find_nl_none(s: Seq<char>, i: int)
    requires
        0 <= i <= s.len(),
        forall|j: int| 0 <= j < s.len() ==> s[j] != '\n',
    ensures
        crate::framing::find_nl(s, i) == s.len(),
    decreases s.len() - i,
{
    if i < s.len() {
        lemma_find_nl_none(s, i + 1);
    }
}

/// Text without a line feed is one single line, itself.
proof fn lemma_lines_single(s: Seq<char>)
    requires
        s.len() > 0,
        forall|j: int| 0 <= j < s.len() ==> s[j] != '\n',
    ensures
        lines_from(s, 0) == seq![s],
{
    lemma_find_nl_none(s, 0);
    assert(crate::framing::line_at(s, 0) =~= s);
}

/// A framing step on a single-line chunk that opens an object treats
/// the whole chunk as mid-unit content and releases or buffers it.
proof fn lemma_step_single_object_line(ph: Phase, s: Seq<char>)
    requires
        !(ph is Ended),
        s.len() > 0,
        s[0] == '{',
        forall|j: int| 0 <= j < s.len() ==> s[j] != '\n',
    ensures
        frame_step(ph, Seq::empty(), s) == crate::framing::frame_release(ph, s),
{
    assert(Seq::<char>::empty() + s =~= s);
    lemma_lines_single(s);
    let ls = lines_from(s, 0);
    assert(ls[0] == s);
    assert(!envelope_shaped(ls));
    assert(ls[0] != seq!['[', '{']);
    assert(ls[0] != seq![',']);
    assert(ls[0] != seq![']']);
    assert(join_from(ls, 1) =~= Seq::<char>::empty());
    assert(join_from(ls, 0) =~= s);
}

/// Reassembly: a single-line object payload split at any offset into
/// two chunks decodes as the unsplit payload does. The first fragment,
/// not yet complete, is buffered without emission; the second step,
/// with the fragment prepended, produces exactly the outcome of the
/// whole payload in one chunk.
pub proof fn lemma_reassembly(ph: Phase, t: Seq<char>, k: int)
    requires
        !(ph is Ended),
        t.len() > 0,
        t[0] == '{',
        forall|j: int| 0 <= j < t.len() ==> t[j] != '\n',
        0 < k < t.len(),
        crate::json::parse_text(t.subrange(0, k)) is None,
    ensures
        frame_step(ph, Seq::empty(), t.subrange(0, k)) == (
            ph,
            t.subrange(0, k),
            FrameEvent::Quiet,
        ),
        frame_step(ph, t.subrange(0, k), t.subrange(k, t.len() as int)) == frame_step(
            ph,
            Seq::empty(),
            t,
        ),
{
    let c1 = t.subrange(0, k);
    let c2 = t.subrange(k, t.len() as int);
    assert(c1[0] == t[0]);
    assert(forall|j: int| 0 <= j < c1.len() ==> c1[j] == t[j]);
    lemma_step_single_object_line(ph, c1);
    assert(c1 + c2 =~= t);
    lemma_step_single_object_line(ph, t);
    assert(frame_step(ph, c1, c2) == frame_step(ph, Seq::empty(), t));
}

/// The lines of a text whose tail holds no line feed, from a position
/// in that tail: the single line from there to the end.
proof fn lemma_lines_single_from(s: Seq<char>, i: int)
    requires
        0 <= i < s.len(),
        forall|j: int| i <= j < s.len() ==> s[j] != '\n',
    ensures
        lines_from(s, i) == seq![s.subrange(i, s.len() as int)],
    decreases s.len() - i,
{
    lemma_find_nl_from(s, i, i);
    assert(crate::framing::line_at(s, i) =~= s.subrange(i, s.len() as int));
}

/// In text whose tail holds no line feed, the search from inside the
/// tail reaches the end.
proof fn lemma_find_nl_from(s: Seq<char>, a: int, i: int)
    requires
        0 <= a <= i <= s.len(),
        forall|j: int| a <= j < s.len() ==> s[j] != '\n',
    ensures
        crate::framing::find_nl(s, i) == s.len(),
    decreases s.len() - i,
{
    if i < s.len() {
        lemma_find_nl_from(s, a, i + 1);
    }
}

/// A chunk that opens with the continuation token line: its lines are
/// the token and the single remaining line, and the step drops the
/// token and releases or buffers the rest.
proof fn lemma_step_comma_chunk(ph: Phase, s: Seq<char>)
    requires
        !(ph is Ended),
        s.len() >= 2,
        s[0] == ',',
        s[1] == '\n',
        forall|j: int| 2 <= j < s.len() ==> s[j] != '\n',
        s.len() > 2 ==> s[2] != '[',
    ensures
        frame_step(ph, Seq::empty(), s) == crate::framing::frame_release(
            ph,
            s.subrange(2, s.len() as int),
        ),
{
    assert(Seq::<char>::empty() + s =~= s);
    assert(crate::framing::find_nl(s, 1) == 1);
    assert(crate::framing::find_nl(s, 0) == 1);
    assert(crate::framing::line_at(s, 0) =~= seq![',']);
    let rest = s.subrange(2, s.len() as int);
    if s.len() == 2 {
        assert(lines_from(s, 2) =~= Seq::<Seq<char>>::empty());
        assert(lines_from(s, 0) =~= seq![seq![',']]);
        let ls = lines_from(s, 0);
        assert(!envelope_shaped(ls));
        assert(ls[0] != seq!['[', '{']);
        assert(ls[0] != seq![']']);
        assert(join_from(ls, 1) =~= Seq::<char>::empty());
        assert(rest =~= Seq::<char>::empty());
    } else {
        lemma_lines_single_from(s, 2);
        assert(lines_from(s, 0) =~= seq![seq![','], rest]);
        let ls = lines_from(s, 0);
        assert(ls[1].len() > 0 ==> ls[1][0] == s[2]);
        assert(!envelope_shaped(ls));
        assert(ls[0] != seq!['[', '{']);
        assert(ls[0] != seq![']']);
        assert(join_from(ls, 2) =~= Seq::<char>::empty());
        assert(join_from(ls, 1) =~= rest);
    }
}

/// Reassembly across the continuation token: a payload of the token
/// line and a single-line object, split anywhere after the token,
/// decodes as the unsplit payload does: the incomplete fragment is
/// buffered without emission, and the next step, with the fragment
/// prepended, produces exactly the outcome of the whole payload.
pub proof fn lemma_reassembly_after_comma(ph: Phase, t: Seq<char>, k: int)
    requires
        !(ph is Ended),
        t.len() > 2,
        t[0] == ',',
        t[1] == '\n',
        t[2] == '{',
        forall|j: int| 2 <= j < t.len() ==> t[j] != '\n',
        2 <= k < t.len(),
        crate::json::parse_text(t.subrange(2, k)) is None,
    ensures
        frame_step(ph, Seq::empty(), t.subrange(0, k)) == (ph, t.subrange(2, k), FrameEvent::Quiet),
        frame_step(ph, t.subrange(2, k), t.subrange(k, t.len() as int)) == frame_step(
            ph,
            Seq::empty(),
            t,
        ),
{
    let c1 = t.subrange(0, k);
    let c2 = t.subrange(k, t.len() as int);
    let frag = t.subrange(2, k);
    let body = t.subrange(2, t.len() as int);
    assert(forall|j: int| 0 <= j < c1.len() ==> c1[j] == t[j]);
    if k == 2 {
        lemma_step_comma_chunk(ph, c1);
        assert(c1.subrange(2, 2) =~= frag);
        assert(frag =~= Seq::<char>::empty());
    } else {
        lemma_step_comma_chunk(ph, c1);
        assert(c1.subrange(2, k) =~= frag);
    }
    lemma_step_comma_chunk(ph, t);
    assert(frag + c2 =~= body);
    lemma_step_single_object_line(ph, body);
    assert(frame_step(ph, frag, c2) == frame_step(ph, Seq::empty(), body)) by {
        assert(frag + c2 == body);
        assert(Seq::<char>::empty() + body =~= body);
    }
}

} // verus!
