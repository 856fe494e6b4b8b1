//! Array framing: splits chunk text into lines, classifies the leading
//! framing token, reassembles partial units through a pending buffer,
//! and spots self-contained error envelopes.
//!
//! One chunk is processed per step. The text, with any pending fragment
//! prepended, is split into lines. A chunk that starts with `[` and ends
//! with `]` is taken for an error envelope. Otherwise the first line is
//! read as a framing token: `[{` opens the array, `,` separates units,
//! `]` ends the stream, and anything else is mid-unit content. The
//! remaining lines, joined, form a unit when they parse as JSON; text
//! that does not yet parse is buffered until more bytes arrive.

use vstd::prelude::*;

use crate::json::{is_ws, parse_text};

verus! {

/// Where a stream stands: before the opening token, inside the array,
/// or done.
#[derive(Clone, Copy, Debug, PartialEq, Eq, Structural)]
pub enum Phase {
    AwaitingFirst,
    Streaming,
    Ended,
}

/// What one framing step yields.
#[derive(Debug)]
pub enum FrameOut {
    /// Nothing complete yet: the content, if any, was buffered.
    Quiet,
    /// One complete textual unit, ready for typed decoding.
    Unit(Vec<char>),
    /// The inner content of a self-contained `[` … `]` chunk.
    Envelope(Vec<char>),
    /// The closing token: the stream is over.
    Finished,
}

/// The shape of a framing step's outcome.
pub enum FrameEvent {
    Quiet,
    Unit(Seq<char>),
    Envelope(Seq<char>),
    Finished,
}

/// The shape of a [`FrameOut`].
pub open spec fn frame_out_view(r: FrameOut) -> FrameEvent {
    match r {
        FrameOut::Quiet => FrameEvent::Quiet,
        FrameOut::Unit(u) => FrameEvent::Unit(u@),
        FrameOut::Envelope(e) => FrameEvent::Envelope(e@),
        FrameOut::Finished => FrameEvent::Finished,
    }
}

/// The position of the first line feed at or after `i`, or the text's
/// end.
pub open spec fn find_nl(s: Seq<char>, i: int) -> int
    decreases s.len() - i,
{
    if 0 <= i < s.len() {
        if s[i] == '\n' {
            i
        } else {
            find_nl(s, i + 1)
        }
    } else {
        s.len() as int
    }
}

/// One line of text: from `i` to the next line feed, with a carriage
/// return before the line feed stripped.
pub open spec fn line_at(s: Seq<char>, i: int) -> Seq<char> {
    let k = find_nl(s, i);
    if i < k && k <= s.len() && s[k - 1] == '\r' && k < s.len() {
        s.subrange(i, k - 1)
    } else {
        s.subrange(i, k)
    }
}

/// The lines of the text from `i` on: split at line feeds, a carriage
/// return before each line feed stripped, no empty line after a final
/// line feed.
pub open spec fn lines_from(s: Seq<char>, i: int) -> Seq<Seq<char>>
    decreases s.len() - i,
{
    if !(0 <= i < s.len()) {
        Seq::empty()
    } else {
        let k = find_nl(s, i);
        if i <= k < s.len() {
            seq![line_at(s, i)] + lines_from(s, k + 1)
        } else {
            seq![line_at(s, i)]
        }
    }
}

/// The segments from `a` on, joined with nothing between them.
pub open spec fn join_from(ls: Seq<Seq<char>>, a: int) -> Seq<char>
    decreases ls.len() - a,
{
    if !(0 <= a < ls.len()) {
        Seq::empty()
    } else {
        ls[a] + join_from(ls, a + 1)
    }
}

/// The framing token a first line spells.
pub enum Token {
    Start,
    Continuation,
    End,
    Unrecognized,
}

/// Classifies a first line: exactly `[{` opens, exactly `,` separates,
/// exactly `]` closes, anything else is mid-unit content.
pub open spec fn token_of(line: Seq<char>) -> Token {
    if line == seq!['[', '{'] {
        Token::Start
    } else if line == seq![','] {
        Token::Continuation
    } else if line == seq![']'] {
        Token::End
    } else {
        Token::Unrecognized
    }
}

/// A square bracket.
pub open spec fn is_bracket(c: char) -> bool {
    c == '[' || c == ']'
}

/// The text with leading characters satisfying the bracket test
/// removed.
pub open spec fn trim_front(s: Seq<char>, ws: bool) -> Seq<char>
    decreases s.len(),
{
    if s.len() > 0 && (if ws {
        is_ws(s[0])
    } else {
        is_bracket(s[0])
    }) {
        trim_front(s.drop_first(), ws)
    } else {
        s
    }
}

/// The text with trailing characters satisfying the bracket test
/// removed.
pub open spec fn trim_back(s: Seq<char>, ws: bool) -> Seq<char>
    decreases s.len(),
{
    if s.len() > 0 && (if ws {
        is_ws(s.last())
    } else {
        is_bracket(s.last())
    }) {
        trim_back(s.drop_last(), ws)
    } else {
        s
    }
}

/// The inner content of an envelope chunk: outer brackets stripped from
/// both ends, then surrounding whitespace.
pub open spec fn envelope_content(j: Seq<char>) -> Seq<char> {
    trim_back(trim_front(trim_back(trim_front(j, false), false), true), true)
}

/// Whether a chunk, as split into lines, looks like a self-contained
/// `[` … `]` envelope.
pub open spec fn envelope_shaped(ls: Seq<Seq<char>>) -> bool {
    ls.len() > 0 && ls[0].len() > 0 && ls[0][0] == '[' && ls[ls.len() - 1].len() > 0
        && ls[ls.len() - 1].last() == ']'
}

/// One framing step: the pending fragment is prepended and cleared, the
/// text split into lines, the envelope shape and the leading token
/// examined, and the remaining content either released as a unit or
/// buffered again.
pub open spec fn frame_step(phase: Phase, pending: Seq<char>, chunk: Seq<char>) -> (
    Phase,
    Seq<char>,
    FrameEvent,
) {
    if phase is Ended {
        (Phase::Ended, pending, FrameEvent::Quiet)
    } else {
        let text = pending + chunk;
        let ls = lines_from(text, 0);
        if ls.len() == 0 {
            (phase, Seq::empty(), FrameEvent::Quiet)
        } else if envelope_shaped(ls) {
            (Phase::Ended, Seq::empty(), FrameEvent::Envelope(envelope_content(join_from(ls, 0))))
        } else {
            match token_of(ls[0]) {
                Token::End => (Phase::Ended, Seq::empty(), FrameEvent::Finished),
                Token::Start => frame_release(Phase::Streaming, join_from(ls, 1)),
                Token::Continuation => frame_release(phase, join_from(ls, 1)),
                Token::Unrecognized => frame_release(phase, join_from(ls, 0)),
            }
        }
    }
}

/// Releases content that parses as JSON as a unit; buffers anything
/// else until more bytes arrive.
pub open spec fn frame_release(phase: Phase, content: Seq<char>) -> (Phase, Seq<char>, FrameEvent) {
    if parse_text(content) is Some {
        (phase, Seq::empty(), FrameEvent::Unit(content))
    } else {
        (phase, content, FrameEvent::Quiet)
    }
}

/// The shapes of a sequence of character vectors.
pub open spec fn vv_view(vs: Seq<Vec<char>>) -> Seq<Seq<char>> {
    Seq::new(vs.len(), |i: int| vs[i]@)
}

/// Concatenates two character vectors.
pub(crate) fn concat_chars(a: &Vec<char>, b: &Vec<char>) -> (r: Vec<char>)
    ensures
        r@ == a@ + b@,
{
    let mut r: Vec<char> = Vec::new();
    let mut k: usize = 0;
    while k < a.len()
        invariant
            0 <= k <= a@.len(),
            r@ == a@.subrange(0, k as int),
        decreases a@.len() - k,
    {
        r.push(a[k]);
        assert(r@ =~= a@.subrange(0, k + 1));
        k = k + 1;
    }
    assert(a@.subrange(0, a@.len() as int) =~= a@);
    let mut k: usize = 0;
    while k < b.len()
        invariant
            0 <= k <= b@.len(),
            r@ == a@ + b@.subrange(0, k as int),
        decreases b@.len() - k,
    {
        r.push(b[k]);
        assert(r@ =~= a@ + b@.subrange(0, k + 1));
        k = k + 1;
    }
    assert(a@ + b@.subrange(0, b@.len() as int) =~= a@ + b@);
    r
}

/// The position of the first line feed at or after `i`.
fn find_nl_x(s: &Vec<char>, i: usize) -> (r: usize)
    requires
        i <= s@.len(),
    ensures
        r as int == find_nl(s@, i as int),
        i <= r <= s@.len(),
{
    let mut j = i;
    while j < s.len() && s[j] != '\n'
        invariant
            i <= j <= s@.len(),
            find_nl(s@, i as int) == find_nl(s@, j as int),
        decreases s@.len() - j,
    {
        j = j + 1;
    }
    j
}

/// Copies the characters in `a .. b` into a fresh vector.
fn copy_chars(s: &Vec<char>, a: usize, b: usize) -> (r: Vec<char>)
    requires
        a <= b <= s@.len(),
    ensures
        r@ == s@.subrange(a as int, b as int),
{
    let mut r: Vec<char> = Vec::new();
    let mut k = a;
    while k < b
        invariant
            a <= k <= b <= s@.len(),
            r@ == s@.subrange(a as int, k as int),
        decreases b - k,
    {
        r.push(s[k]);
        assert(r@ =~= s@.subrange(a as int, k + 1));
        k = k + 1;
    }
    r
}

/// Splits a text into its lines.
fn lines_x(s: &Vec<char>) -> (r: Vec<Vec<char>>)
    ensures
        vv_view(r@) == lines_from(s@, 0),
{
    let mut acc: Vec<Vec<char>> = Vec::new();
    let mut i: usize = 0;
    assert(vv_view(acc@) =~= Seq::<Seq<char>>::empty());
    while i < s.len()
        invariant
            0 <= i <= s@.len(),
            lines_from(s@, 0) =~= vv_view(acc@) + lines_from(s@, i as int),
        decreases s@.len() - i,
    {
        let k = find_nl_x(s, i);
        let line = if k > i && k < s.len() && s[k - 1] == '\r' {
            copy_chars(s, i, k - 1)
        } else {
            copy_chars(s, i, k)
        };
        proof {
            assert(line@ == line_at(s@, i as int));
        }
        let ghost old_acc = acc@;
        acc.push(line);
        proof {
            assert(vv_view(acc@) =~= vv_view(old_acc).push(line@));
        }
        if k < s.len() {
            proof {
                assert(vv_view(old_acc).push(line@) =~= vv_view(old_acc) + seq![line@]);
                assert(lines_from(s@, i as int) == seq![line_at(s@, i as int)] + lines_from(
                    s@,
                    k as int + 1,
                ));
                assert(vv_view(old_acc) + lines_from(s@, i as int) =~= vv_view(acc@) + lines_from(
                    s@,
                    k as int + 1,
                ));
            }
            i = k + 1;
        } else {
            proof {
                assert(lines_from(s@, i as int) == seq![line_at(s@, i as int)]);
                assert(vv_view(old_acc) + lines_from(s@, i as int) =~= vv_view(acc@));
                assert(lines_from(s@, s@.len() as int) =~= Seq::<Seq<char>>::empty());
                assert(vv_view(acc@) + lines_from(s@, s@.len() as int) =~= vv_view(acc@));
            }
            i = s.len();
        }
    }
    proof {
        assert(lines_from(s@, s@.len() as int) =~= Seq::<Seq<char>>::empty());
        assert(vv_view(acc@) + lines_from(s@, i as int) =~= vv_view(acc@));
    }
    acc
}

/// Joins the lines from `a` on, with nothing between them.
fn join_x(ls: &Vec<Vec<char>>, a: usize) -> (r: Vec<char>)
    requires
        a <= ls@.len(),
    ensures
        r@ == join_from(vv_view(ls@), a as int),
{
    let mut r: Vec<char> = Vec::new();
    let mut k = a;
    while k < ls.len()
        invariant
            a <= k <= ls@.len(),
            join_from(vv_view(ls@), a as int) =~= r@ + join_from(vv_view(ls@), k as int),
        decreases ls@.len() - k,
    {
        let ghost old_r = r@;
        let piece = &ls[k];
        let mut j: usize = 0;
        while j < piece.len()
            invariant
                0 <= j <= piece@.len(),
                piece@ == vv_view(ls@)[k as int],
                r@ == old_r + piece@.subrange(0, j as int),
            decreases piece@.len() - j,
        {
            r.push(piece[j]);
            assert(r@ =~= old_r + piece@.subrange(0, j + 1));
            j = j + 1;
        }
        proof {
            assert(old_r + piece@.subrange(0, piece@.len() as int) =~= old_r + piece@);
            assert(join_from(vv_view(ls@), k as int) == vv_view(ls@)[k as int] + join_from(
                vv_view(ls@),
                k as int + 1,
            ));
            assert(old_r + join_from(vv_view(ls@), k as int) =~= r@ + join_from(
                vv_view(ls@),
                k as int + 1,
            ));
        }
        k = k + 1;
    }
    proof {
        assert(join_from(vv_view(ls@), ls@.len() as int) =~= Seq::<char>::empty());
        assert(r@ + join_from(vv_view(ls@), k as int) =~= r@);
    }
    r
}

/// Whether a character is stripped by the given trim.
fn trim_pred(c: char, ws: bool) -> (b: bool)
    ensures
        b == (if ws {
            is_ws(c)
        } else {
            is_bracket(c)
        }),
{
    if ws {
        c == ' ' || c == '\t' || c == '\n' || c == '\r'
    } else {
        c == '[' || c == ']'
    }
}

/// Strips leading brackets or whitespace.
fn trim_front_x(s: &Vec<char>, ws: bool) -> (r: Vec<char>)
    ensures
        r@ == trim_front(s@, ws),
{
    let mut a: usize = 0;
    assert(s@.subrange(0, s@.len() as int) =~= s@);
    while a < s.len() && trim_pred(s[a], ws)
        invariant
            0 <= a <= s@.len(),
            trim_front(s@, ws) == trim_front(s@.subrange(a as int, s@.len() as int), ws),
        decreases s@.len() - a,
    {
        proof {
            let cur = s@.subrange(a as int, s@.len() as int);
            assert(cur[0] == s@[a as int]);
            assert(cur.drop_first() =~= s@.subrange(a as int + 1, s@.len() as int));
        }
        a = a + 1;
    }
    proof {
        let cur = s@.subrange(a as int, s@.len() as int);
        if cur.len() > 0 {
            assert(cur[0] == s@[a as int]);
        }
        assert(trim_front(cur, ws) == cur);
    }
    copy_chars(s, a, s.len())
}

/// Strips trailing brackets or whitespace.
fn trim_back_x(s: &Vec<char>, ws: bool) -> (r: Vec<char>)
    ensures
        r@ == trim_back(s@, ws),
{
    let mut b: usize = s.len();
    assert(s@.subrange(0, s@.len() as int) =~= s@);
    while b > 0 && trim_pred(s[b - 1], ws)
        invariant
            0 <= b <= s@.len(),
            trim_back(s@, ws) == trim_back(s@.subrange(0, b as int), ws),
        decreases b,
    {
        proof {
            let cur = s@.subrange(0, b as int);
            assert(cur.last() == s@[b - 1]);
            assert(cur.drop_last() =~= s@.subrange(0, b - 1));
        }
        b = b - 1;
    }
    proof {
        let cur = s@.subrange(0, b as int);
        if cur.len() > 0 {
            assert(cur.last() == s@[b - 1]);
        }
        assert(trim_back(cur, ws) == cur);
    }
    copy_chars(s, 0, b)
}

/// The inner content of an envelope chunk, as `envelope_content` gives
/// it.
fn envelope_content_x(j: &Vec<char>) -> (r: Vec<char>)
    ensures
        r@ == envelope_content(j@),
{
    let t1 = trim_front_x(j, false);
    let t2 = trim_back_x(&t1, false);
    let t3 = trim_front_x(&t2, true);
    trim_back_x(&t3, true)
}

/// The reassembly state of one array-framed stream: its phase and the
/// pending fragment.
#[derive(Debug)]
pub struct Framer {
    pub phase: Phase,
    pub pending: Vec<char>,
}

impl Framer {
    /// A fresh stream: before the opening token, nothing buffered.
    pub fn new() -> (r: Framer)
        ensures
            r.phase == Phase::AwaitingFirst,
            r.pending@ == Seq::<char>::empty(),
    {
        Framer { phase: Phase::AwaitingFirst, pending: Vec::new() }
    }

    /// Processes one chunk of text, exactly as `frame_step` describes.
    pub fn step(&mut self, chunk: &Vec<char>) -> (r: FrameOut)
        ensures
            ({
                let (p2, b2, ev) = frame_step(old(self).phase, old(self).pending@, chunk@);
                final(self).phase == p2 && final(self).pending@ == b2 && frame_out_view(r) == ev
            }),
    {
        if self.phase == Phase::Ended {
            return FrameOut::Quiet;
        }
        let text = concat_chars(&self.pending, chunk);
        let ls = lines_x(&text);
        let ghost lsv = lines_from(text@, 0);
        if ls.len() == 0 {
            self.pending = Vec::new();
            return FrameOut::Quiet;
        }
        let first_len = ls[0].len();
        let last = ls.len() - 1;
        let last_len = ls[last].len();
        proof {
            assert(ls@[0]@ == lsv[0]);
            assert(ls@[last as int]@ == lsv[last as int]);
        }
        if first_len > 0 && ls[0][0] == '[' && last_len > 0 && ls[last][last_len - 1] == ']' {
            assert(envelope_shaped(lsv));
            self.phase = Phase::Ended;
            self.pending = Vec::new();
            let joined = join_x(&ls, 0);
            let inner = envelope_content_x(&joined);
            return FrameOut::Envelope(inner);
        }
        assert(!envelope_shaped(lsv));
        let first = &ls[0];
        if first.len() == 1 && first[0] == ']' {
            proof {
                assert(lsv[0] =~= seq![']']);
            }
            self.phase = Phase::Ended;
            self.pending = Vec::new();
            return FrameOut::Finished;
        }
        let content: Vec<char>;
        if first.len() == 2 && first[0] == '[' && first[1] == '{' {
            proof {
                assert(lsv[0] =~= seq!['[', '{']);
            }
            self.phase = Phase::Streaming;
            content = join_x(&ls, 1);
        } else if first.len() == 1 && first[0] == ',' {
            proof {
                assert(lsv[0] =~= seq![',']);
                assert(lsv[0] != seq![']']);
            }
            content = join_x(&ls, 1);
        } else {
            proof {
                assert(lsv[0] != seq!['[', '{']);
                assert(lsv[0] != seq![',']);
                assert(lsv[0] != seq![']']);
            }
            content = join_x(&ls, 0);
        }
        match crate::json_exec::json_parse_chars(&content) {
            Some(_) => {
                self.pending = Vec::new();
                FrameOut::Unit(content)
            },
            None => {
                self.pending = content;
                FrameOut::Quiet
            },
        }
    }
}

} // verus!
