//! Serialization of the event backend's success object, proved to
//! round-trip: the rendered text parses back and decodes to the same
//! object.

use vstd::prelude::*;

use crate::claude_types::{
    claude_content_view, contents_views, decode_claude_content, decode_claude_usage,
    decode_contents_from, decode_raw_response, response_view, ClaudeContent, ClaudeContentView,
    ClaudeStopReason, ClaudeUsage, RawPredictResponse,
};
use crate::json::{jview, jview_fields, jview_seq, parse_text, wf_json, Json, JsonView};
use crate::json_exec::{json_to_string, u32_to_text};
use crate::text::{chars_to_string, str_to_chars};

verus! {

/// An owned copy of a string slice.
fn owned(s: &str) -> (r: String)
    ensures
        r@ == s@,
{
    let cs = str_to_chars(s);
    chars_to_string(&cs)
}

/// An owned copy of a string.
fn copy_string(s: &String) -> (r: String)
    ensures
        r@ == s@,
{
    let cs = str_to_chars(s.as_str());
    chars_to_string(&cs)
}

/// Serializes one content block; its decoding gives the block back.
fn content_block_to_json(c: &ClaudeContent) -> (r: Json)
    ensures
        decode_claude_content(jview(r)) == Some(claude_content_view(*c)),
        wf_json(jview(r)),
{
    let mut fs: Vec<(String, Json)> = Vec::new();
    fs.push((owned("type"), Json::Text(copy_string(&c.c_type))));
    fs.push((owned("text"), Json::Text(copy_string(&c.text))));
    let r = Json::Obj(fs);
    proof {
        reveal_with_fuel(crate::decode::find_field, 4);
        reveal_strlit("type");
        reveal_strlit("text");
        assert("type"@[2] == 'p');
        assert("text"@[2] == 'x');
        let fsv = jview_fields(r->Obj_0@);
        crate::decode::lemma_jview_fields_index(r->Obj_0@, 0);
        crate::decode::lemma_jview_fields_index(r->Obj_0@, 1);
        assert(fsv[0] == ("type"@, JsonView::Text(c.c_type@)));
        assert(fsv[1] == ("text"@, JsonView::Text(c.text@)));
        assert("type"@ != "text"@);
        assert(crate::decode::req_text_field(fsv, "type"@) == Some(c.c_type@));
        assert(crate::decode::req_text_field(fsv, "text"@) == Some(c.text@));
        assert(forall|k: int| 0 <= k < fsv.len() ==> wf_json(#[trigger] fsv[k].1));
    }
    r
}

/// Serializes the usage counts; their decoding gives them back.
fn usage_to_json(u: &ClaudeUsage) -> (r: Json)
    ensures
        decode_claude_usage(jview(r)) == Some(*u),
        wf_json(jview(r)),
{
    let mut fs: Vec<(String, Json)> = Vec::new();
    fs.push((owned("input_tokens"), Json::Num(chars_to_string(&u32_to_text(u.input_tokens)))));
    fs.push((owned("output_tokens"), Json::Num(chars_to_string(&u32_to_text(u.output_tokens)))));
    let r = Json::Obj(fs);
    proof {
        reveal_with_fuel(crate::decode::find_field, 4);
        reveal_strlit("input_tokens");
        reveal_strlit("output_tokens");
        assert("input_tokens"@[0] == 'i');
        assert("output_tokens"@[0] == 'o');
        let fsv = jview_fields(r->Obj_0@);
        crate::decode::lemma_jview_fields_index(r->Obj_0@, 0);
        crate::decode::lemma_jview_fields_index(r->Obj_0@, 1);
        assert("input_tokens"@ != "output_tokens"@);
        assert(crate::decode::req_u32_field(fsv, "input_tokens"@) == Some(u.input_tokens));
        assert(crate::decode::req_u32_field(fsv, "output_tokens"@) == Some(u.output_tokens));
        assert(forall|k: int| 0 <= k < fsv.len() ==> wf_json(#[trigger] fsv[k].1));
    }
    r
}

/// Appending a serialized block to an array appends its decoding.
proof fn lemma_decode_contents_snoc(es: Seq<JsonView>, e: JsonView, v: ClaudeContentView, i: int)
    requires
        0 <= i <= es.len(),
        decode_claude_content(e) == Some(v),
    ensures
        decode_contents_from(es.push(e), i) == (match decode_contents_from(es, i) {
            Some(vs) => Some(vs.push(v)),
            None => None,
        }),
    decreases es.len() - i,
{
    let w = es.push(e);
    if i < es.len() {
        assert(w[i] == es[i]);
        lemma_decode_contents_snoc(es, e, v, i + 1);
        if let Some(x) = decode_claude_content(es[i]) {
            if let Some(vs) = decode_contents_from(es, i + 1) {
                assert(seq![x] + vs.push(v) =~= (seq![x] + vs).push(v));
            }
        }
    } else {
        assert(w[i] == e);
        assert(decode_contents_from(w, i + 1) == Some(Seq::<ClaudeContentView>::empty()));
        assert(decode_contents_from(es, i) == Some(Seq::<ClaudeContentView>::empty()));
        assert(seq![v] + Seq::<ClaudeContentView>::empty() =~= Seq::<
            ClaudeContentView,
        >::empty().push(v));
    }
}

/// Serializes the content blocks; their decoding gives them back.
fn content_blocks_to_json(blocks: &Vec<ClaudeContent>) -> (r: Vec<Json>)
    ensures
        decode_contents_from(jview_seq(r@), 0) == Some(contents_views(blocks@)),
        forall|k: int| 0 <= k < jview_seq(r@).len() ==> wf_json(#[trigger] jview_seq(r@)[k]),
{
    let mut out: Vec<Json> = Vec::new();
    let mut i: usize = 0;
    proof {
        assert(jview_seq(out@) =~= Seq::<JsonView>::empty());
        assert(contents_views(blocks@.subrange(0, 0)) =~= Seq::<ClaudeContentView>::empty());
    }
    while i < blocks.len()
        invariant
            0 <= i <= blocks@.len(),
            decode_contents_from(jview_seq(out@), 0) == Some(
                contents_views(blocks@.subrange(0, i as int)),
            ),
            forall|k: int|
                0 <= k < jview_seq(out@).len() ==> wf_json(#[trigger] jview_seq(out@)[k]),
        decreases blocks@.len() - i,
    {
        let b = content_block_to_json(&blocks[i]);
        let ghost old_out = out@;
        let ghost gb = b;
        out.push(b);
        proof {
            assert(out@ =~= old_out.push(gb));
            crate::json_exec::lemma_jview_seq_snoc(old_out, gb);
            lemma_decode_contents_snoc(
                jview_seq(old_out),
                jview(gb),
                claude_content_view(blocks@[i as int]),
                0,
            );
            assert(blocks@.subrange(0, i + 1) =~= blocks@.subrange(0, i as int).push(
                blocks@[i as int],
            ));
            assert(contents_views(blocks@.subrange(0, i + 1)) =~= contents_views(
                blocks@.subrange(0, i as int),
            ).push(claude_content_view(blocks@[i as int])));
            crate::json::lemma_jview_seq_len(out@);
            assert(forall|k: int|
                0 <= k < jview_seq(out@).len() ==> wf_json(#[trigger] jview_seq(out@)[k])) by {
                assert(forall|k: int|
                    0 <= k < jview_seq(old_out).len() ==> jview_seq(out@)[k] == jview_seq(
                        old_out,
                    )[k]);
            }
        }
        i = i + 1;
    }
    proof {
        assert(blocks@.subrange(0, blocks@.len() as int) =~= blocks@);
    }
    out
}

/// The wire tag of a stop reason.
fn stop_reason_tag(s: ClaudeStopReason) -> (r: &'static str)
    ensures
        crate::claude_types::stop_reason_of(r@) == Some(s),
{
    proof {
        reveal_strlit("end_turn");
        reveal_strlit("max_tokens");
        reveal_strlit("max_time");
        reveal_strlit("tool_use");
        assert("end_turn"@[0] == 'e');
        assert("max_tokens"@.len() == 10);
        assert("max_time"@[0] == 'm');
        assert("tool_use"@[0] == 't');
    }
    match s {
        ClaudeStopReason::EndTurn => "end_turn",
        ClaudeStopReason::MaxTokens => "max_tokens",
        ClaudeStopReason::StopSequence => "max_time",
        ClaudeStopReason::ToolUse => "tool_use",
    }
}

/// Serializes a whole message and proves the round trip: the rendered
/// text parses back as one JSON value whose strict decoding is exactly
/// the original message.
pub fn encode_raw_predict_response(x: &RawPredictResponse) -> (r: String)
    ensures
        parse_text(r@) matches Some(j) && decode_raw_response(j) == Some(response_view(*x)),
{
    let mut fs: Vec<(String, Json)> = Vec::new();
    fs.push((owned("id"), Json::Text(copy_string(&x.id))));
    fs.push((owned("type"), Json::Text(copy_string(&x.m_type))));
    fs.push((owned("role"), Json::Text(copy_string(&x.role))));
    fs.push((owned("content"), Json::Arr(content_blocks_to_json(&x.content))));
    fs.push((owned("usage"), usage_to_json(&x.usage)));
    match x.stop_reason {
        Some(sr) => {
            fs.push((owned("stop_reason"), Json::Text(owned(stop_reason_tag(sr)))));
        },
        None => {},
    }
    match &x.stop_sequence {
        Some(ss) => {
            fs.push((owned("stop_sequence"), Json::Text(copy_string(ss))));
        },
        None => {},
    }
    let obj = Json::Obj(fs);
    proof {
        let fs0 = obj->Obj_0@;
        crate::json::lemma_jview_fields_len(fs0);
        crate::decode::lemma_jview_fields_index(fs0, 0);
        crate::decode::lemma_jview_fields_index(fs0, 1);
        crate::decode::lemma_jview_fields_index(fs0, 2);
        crate::decode::lemma_jview_fields_index(fs0, 3);
        crate::decode::lemma_jview_fields_index(fs0, 4);
        if x.stop_reason is Some {
            crate::decode::lemma_jview_fields_index(fs0, 5);
        }
        if x.stop_sequence is Some {
            crate::decode::lemma_jview_fields_index(
                fs0,
                if x.stop_reason is Some {
                    6int
                } else {
                    5int
                },
            );
        }
        assert(encoded_shape(*x, jview_fields(fs0)));
        lemma_encode_fields(*x, obj);
    }
    json_to_string(&obj)
}

/// The decoding and well-formedness of the field list the encoder
/// builds.
proof fn lemma_encode_fields(x: RawPredictResponse, obj: Json)
    requires
        obj is Obj,
        encoded_shape(x, jview_fields(obj->Obj_0@)),
    ensures
        decode_raw_response(jview(obj)) == Some(response_view(x)),
        wf_json(jview(obj)),
        parse_text(crate::json::render(jview(obj))) == Some(jview(obj)),
{
    let fsv = jview_fields(obj->Obj_0@);
    reveal_with_fuel(crate::decode::find_field, 9);
    reveal_strlit("id");
    reveal_strlit("type");
    reveal_strlit("role");
    reveal_strlit("content");
    reveal_strlit("usage");
    reveal_strlit("stop_reason");
    reveal_strlit("stop_sequence");
    assert("id"@[0] == 'i');
    assert("type"@[0] == 't');
    assert("role"@[0] == 'r');
    assert("content"@[0] == 'c');
    assert("usage"@[0] == 'u');
    assert("stop_reason"@[0] == 's');
    assert("stop_sequence"@[0] == 's');
    assert("stop_reason"@.len() == 11);
    assert("stop_sequence"@.len() == 13);
    assert(jview(obj) == JsonView::Obj(fsv));
    assert(crate::decode::req_text_field(fsv, "id"@) == Some(x.id@));
    assert(crate::decode::req_text_field(fsv, "type"@) == Some(x.m_type@));
    assert(crate::decode::req_text_field(fsv, "role"@) == Some(x.role@));
    assert(crate::decode::get_field(fsv, "content"@) == Some(fsv[3].1));
    assert(crate::decode::get_field(fsv, "usage"@) == Some(fsv[4].1));
    match x.stop_reason {
        Some(sr) => {
            assert(crate::decode::get_field(fsv, "stop_reason"@) == Some(fsv[5].1));
            assert(crate::decode::lift_tag(
                crate::decode::opt_text_field(fsv, "stop_reason"@),
                |t: Seq<char>| crate::claude_types::stop_reason_of(t),
            ) == Some(Some(sr)));
        },
        None => {
            assert(crate::decode::get_field(fsv, "stop_reason"@) is None);
            assert(crate::decode::lift_tag(
                crate::decode::opt_text_field(fsv, "stop_reason"@),
                |t: Seq<char>| crate::claude_types::stop_reason_of(t),
            ) == Some(None::<ClaudeStopReason>));
        },
    }
    match x.stop_sequence {
        Some(ss) => {
            assert(crate::decode::opt_text_field(fsv, "stop_sequence"@) == Some(Some(ss@)));
        },
        None => {
            assert(crate::decode::get_field(fsv, "stop_sequence"@) is None);
            assert(crate::decode::opt_text_field(fsv, "stop_sequence"@) == Some(
                None::<Seq<char>>,
            ));
        },
    }
    assert(decode_raw_response(jview(obj)) == Some(response_view(x)));
    assert forall|k: int| 0 <= k < fsv.len() implies wf_json(#[trigger] fsv[k].1) by {
        if k == 3 {
            assert(wf_json(fsv[3].1));
        } else if k == 4 {
        } else {
            assert(fsv[k].1 is Text);
        }
    }
    assert(wf_json(jview(obj)));
    crate::json_proofs::lemma_parse_text_render(jview(obj));
}

/// The exact shape of the encoder's field list: the five required
/// fields in order, then the optional stop data.
spec fn encoded_shape(x: RawPredictResponse, fsv: Seq<(Seq<char>, JsonView)>) -> bool {
    &&& fsv.len() >= 5
    &&& fsv[0] == ("id"@, JsonView::Text(x.id@))
    &&& fsv[1] == ("type"@, JsonView::Text(x.m_type@))
    &&& fsv[2] == ("role"@, JsonView::Text(x.role@))
    &&& fsv[3].0 == "content"@
    &&& fsv[3].1 is Arr
    &&& decode_contents_from(fsv[3].1->Arr_0, 0) == Some(contents_views(x.content@))
    &&& (forall|k: int|
        0 <= k < fsv[3].1->Arr_0.len() ==> wf_json(#[trigger] fsv[3].1->Arr_0[k]))
    &&& fsv[4].0 == "usage"@
    &&& decode_claude_usage(fsv[4].1) == Some(x.usage)
    &&& wf_json(fsv[4].1)
    &&& match x.stop_reason {
        Some(sr) => fsv.len() >= 6 && fsv[5].0 == "stop_reason"@ && (fsv[5].1 matches
            JsonView::Text(t) && crate::claude_types::stop_reason_of(t) == Some(sr)),
        None => true,
    }
    &&& match x.stop_sequence {
        Some(ss) => {
            let at = if x.stop_reason is Some {
                6int
            } else {
                5int
            };
            fsv.len() == at + 1 && fsv[at].0 == "stop_sequence"@ && fsv[at].1 == JsonView::Text(
                ss@,
            )
        },
        None => fsv.len() == (if x.stop_reason is Some {
            6int
        } else {
            5int
        }),
    }
}

/// A text-only success object: every candidate holds text parts alone,
/// with no ratings, citations or feedback. This is the shape the
/// serializer below covers.
pub open spec fn text_only_response(x: crate::content::GenerateContentResponse) -> bool {
    &&& x.prompt_feedback is None
    &&& match x.candidates {
        Some(cs) => forall|i: int| 0 <= i < cs@.len() ==> text_only_candidate(#[trigger] cs@[i]),
        None => true,
    }
}

/// A text-only candidate.
pub open spec fn text_only_candidate(c: crate::content::GenerateContentCandidate) -> bool {
    &&& c.safety_ratings is None
    &&& c.citation_metadata is None
    &&& forall|i: int|
        0 <= i < c.content.parts@.len() ==> (#[trigger] c.content.parts@[i]) is TextPart
}

/// Serializes one text part; its decoding gives the part back.
fn text_part_to_json(p: &crate::content::Part) -> (r: Json)
    requires
        *p is TextPart,
    ensures
        crate::content::decode_part(jview(r)) == Some(crate::content::part_view(*p)),
        wf_json(jview(r)),
{
    let t = match p {
        crate::content::Part::TextPart(t) => copy_string(&t.text),
        _ => owned(""),
    };
    let mut fs: Vec<(String, Json)> = Vec::new();
    fs.push((owned("text"), Json::Text(t)));
    let r = Json::Obj(fs);
    proof {
        reveal_with_fuel(crate::decode::find_field, 3);
        reveal_strlit("text");
        let fsv = jview_fields(r->Obj_0@);
        crate::decode::lemma_jview_fields_index(r->Obj_0@, 0);
        assert(forall|k: int| 0 <= k < fsv.len() ==> wf_json(#[trigger] fsv[k].1));
    }
    r
}

/// Appending a serialized part to an array appends its decoding.
proof fn lemma_decode_parts_snoc(
    es: Seq<JsonView>,
    e: JsonView,
    v: crate::content::PartView,
    i: int,
)
    requires
        0 <= i <= es.len(),
        crate::content::decode_part(e) == Some(v),
    ensures
        crate::content::decode_parts_from(es.push(e), i) == (
        match crate::content::decode_parts_from(es, i) {
            Some(vs) => Some(vs.push(v)),
            None => None,
        }),
    decreases es.len() - i,
{
    let w = es.push(e);
    if i < es.len() {
        assert(w[i] == es[i]);
        lemma_decode_parts_snoc(es, e, v, i + 1);
        if let Some(x) = crate::content::decode_part(es[i]) {
            if let Some(vs) = crate::content::decode_parts_from(es, i + 1) {
                assert(seq![x] + vs.push(v) =~= (seq![x] + vs).push(v));
            }
        }
    } else {
        assert(w[i] == e);
        assert(crate::content::decode_parts_from(w, i + 1) == Some(
            Seq::<crate::content::PartView>::empty(),
        ));
        assert(crate::content::decode_parts_from(es, i) == Some(
            Seq::<crate::content::PartView>::empty(),
        ));
        assert(seq![v] + Seq::<crate::content::PartView>::empty() =~= Seq::<
            crate::content::PartView,
        >::empty().push(v));
    }
}

/// Serializes a content turn of text parts; its decoding gives it
/// back.
fn gc_content_to_json(c: &crate::content::Content) -> (r: Json)
    requires
        forall|i: int| 0 <= i < c.parts@.len() ==> (#[trigger] c.parts@[i]) is TextPart,
    ensures
        crate::content::decode_content(jview(r)) == Some(crate::content::content_view(*c)),
        wf_json(jview(r)),
{
    let mut es: Vec<Json> = Vec::new();
    let mut i: usize = 0;
    proof {
        assert(jview_seq(es@) =~= Seq::<JsonView>::empty());
        assert(Seq::new(0, |k: int| crate::content::part_view(c.parts@[k])) =~= Seq::<
            crate::content::PartView,
        >::empty());
    }
    while i < c.parts.len()
        invariant
            0 <= i <= c.parts@.len(),
            forall|k: int| 0 <= k < c.parts@.len() ==> (#[trigger] c.parts@[k]) is TextPart,
            crate::content::decode_parts_from(jview_seq(es@), 0) == Some(
                Seq::new(i as nat, |k: int| crate::content::part_view(c.parts@[k])),
            ),
            forall|k: int|
                0 <= k < jview_seq(es@).len() ==> wf_json(#[trigger] jview_seq(es@)[k]),
        decreases c.parts@.len() - i,
    {
        let b = text_part_to_json(&c.parts[i]);
        let ghost old_es = es@;
        let ghost gb = b;
        es.push(b);
        proof {
            assert(es@ =~= old_es.push(gb));
            crate::json_exec::lemma_jview_seq_snoc(old_es, gb);
            lemma_decode_parts_snoc(
                jview_seq(old_es),
                jview(gb),
                crate::content::part_view(c.parts@[i as int]),
                0,
            );
            assert(Seq::new((i + 1) as nat, |k: int| crate::content::part_view(c.parts@[k]))
                =~= Seq::new(i as nat, |k: int| crate::content::part_view(c.parts@[k])).push(
                crate::content::part_view(c.parts@[i as int]),
            ));
            crate::json::lemma_jview_seq_len(es@);
            assert(forall|k: int|
                0 <= k < jview_seq(es@).len() ==> wf_json(#[trigger] jview_seq(es@)[k])) by {
                assert(forall|k: int|
                    0 <= k < jview_seq(old_es).len() ==> jview_seq(es@)[k] == jview_seq(
                        old_es,
                    )[k]);
            }
        }
        i = i + 1;
    }
    let mut fs: Vec<(String, Json)> = Vec::new();
    fs.push((owned("parts"), Json::Arr(es)));
    fs.push((owned("role"), Json::Text(copy_string(&c.role))));
    let r = Json::Obj(fs);
    proof {
        reveal_with_fuel(crate::decode::find_field, 4);
        reveal_strlit("parts");
        reveal_strlit("role");
        assert("parts"@[0] == 'p');
        assert("role"@[0] == 'r');
        let fsv = jview_fields(r->Obj_0@);
        crate::decode::lemma_jview_fields_index(r->Obj_0@, 0);
        crate::decode::lemma_jview_fields_index(r->Obj_0@, 1);
        assert(forall|k: int| 0 <= k < fsv.len() ==> wf_json(#[trigger] fsv[k].1));
        assert(crate::content::content_view(*c).parts =~= Seq::new(
            c.parts@.len(),
            |k: int| crate::content::part_view(c.parts@[k]),
        ));
    }
    r
}

/// The wire tag of a finish reason.
fn finish_reason_wire_tag(f: crate::content::FinishReason) -> (r: &'static str)
    ensures
        crate::content::finish_reason_of(r@) == Some(f),
{
    proof {
        reveal_strlit("FINISH_REASON_UNSPECIFIED");
        reveal_strlit("STOP");
        reveal_strlit("MAX_TOKENS");
        reveal_strlit("SAFETY");
        reveal_strlit("RECITATION");
        reveal_strlit("OTHER");
        reveal_strlit("BLOCKLIST");
        reveal_strlit("PROHIBITED_CONTENT");
        reveal_strlit("SPII");
        assert("FINISH_REASON_UNSPECIFIED"@.len() == 25);
        assert("STOP"@[1] == 'T');
        assert("MAX_TOKENS"@[0] == 'M');
        assert("SAFETY"@[0] == 'S');
        assert("SAFETY"@.len() == 6);
        assert("RECITATION"@[0] == 'R');
        assert("OTHER"@[0] == 'O');
        assert("BLOCKLIST"@[0] == 'B');
        assert("PROHIBITED_CONTENT"@[0] == 'P');
        assert("SPII"@[1] == 'P');
    }
    match f {
        crate::content::FinishReason::FinishReasonUnspecified => "FINISH_REASON_UNSPECIFIED",
        crate::content::FinishReason::Stop => "STOP",
        crate::content::FinishReason::MaxTokens => "MAX_TOKENS",
        crate::content::FinishReason::Safety => "SAFETY",
        crate::content::FinishReason::Recitation => "RECITATION",
        crate::content::FinishReason::Other => "OTHER",
        crate::content::FinishReason::Blocklist => "BLOCKLIST",
        crate::content::FinishReason::ProhibitedContent => "PROHIBITED_CONTENT",
        crate::content::FinishReason::Spii => "SPII",
    }
}

/// Serializes one text-only candidate; absent options are written as
/// nulls, which decode back to absent.
fn gc_candidate_to_json(c: &crate::content::GenerateContentCandidate) -> (r: Json)
    requires
        text_only_candidate(*c),
    ensures
        crate::content::decode_candidate(jview(r)) == Some(crate::content::candidate_view(*c)),
        wf_json(jview(r)),
{
    let mut fs: Vec<(String, Json)> = Vec::new();
    fs.push((owned("content"), gc_content_to_json(&c.content)));
    fs.push((
        owned("index"),
        match c.index {
            Some(v) => Json::Num(chars_to_string(&u32_to_text(v))),
            None => Json::Null,
        },
    ));
    fs.push((
        owned("finishReason"),
        match c.finish_reason {
            Some(f) => Json::Text(owned(finish_reason_wire_tag(f))),
            None => Json::Null,
        },
    ));
    fs.push((
        owned("finishMessage"),
        match &c.finish_message {
            Some(m) => Json::Text(copy_string(m)),
            None => Json::Null,
        },
    ));
    fs.push((owned("safetyRatings"), Json::Null));
    fs.push((owned("citationMetadata"), Json::Null));
    let r = Json::Obj(fs);
    proof {
        reveal_with_fuel(crate::decode::find_field, 8);
        reveal_strlit("content");
        reveal_strlit("index");
        reveal_strlit("finishReason");
        reveal_strlit("finishMessage");
        reveal_strlit("safetyRatings");
        reveal_strlit("citationMetadata");
        assert("content"@[0] == 'c');
        assert("index"@[0] == 'i');
        assert("finishReason"@[0] == 'f');
        assert("finishMessage"@[0] == 'f');
        assert("finishReason"@.len() == 12);
        assert("finishMessage"@.len() == 13);
        assert("safetyRatings"@[0] == 's');
        assert("citationMetadata"@[0] == 'c');
        assert("citationMetadata"@.len() == 16);
        let fsv = jview_fields(r->Obj_0@);
        crate::decode::lemma_jview_fields_index(r->Obj_0@, 0);
        crate::decode::lemma_jview_fields_index(r->Obj_0@, 1);
        crate::decode::lemma_jview_fields_index(r->Obj_0@, 2);
        crate::decode::lemma_jview_fields_index(r->Obj_0@, 3);
        crate::decode::lemma_jview_fields_index(r->Obj_0@, 4);
        crate::decode::lemma_jview_fields_index(r->Obj_0@, 5);
        assert(crate::decode::get_field(fsv, "content"@) == Some(fsv[0].1));
        assert(crate::decode::opt_u32_field(fsv, "index"@) == Some(c.index));
        assert(crate::decode::lift_tag(
            crate::decode::opt_text_field(fsv, "finishReason"@),
            |t: Seq<char>| crate::content::finish_reason_of(t),
        ) == Some(c.finish_reason));
        assert(crate::decode::opt_text_field(fsv, "finishMessage"@) == Some(
            crate::decode::view_opt_string(c.finish_message),
        ));
        assert(crate::decode::get_field(fsv, "safetyRatings"@) == Some(JsonView::Null));
        assert(crate::decode::get_field(fsv, "citationMetadata"@) == Some(JsonView::Null));
        assert(crate::content::decode_candidate(jview(r)) == Some(
            crate::content::candidate_view(*c),
        ));
        assert(forall|k: int| 0 <= k < fsv.len() ==> wf_json(#[trigger] fsv[k].1));
    }
    r
}

/// Appending a serialized candidate to an array appends its decoding.
proof fn lemma_decode_candidates_snoc(
    es: Seq<JsonView>,
    e: JsonView,
    v: crate::content::CandidateView,
    i: int,
)
    requires
        0 <= i <= es.len(),
        crate::content::decode_candidate(e) == Some(v),
    ensures
        crate::content::decode_candidates_from(es.push(e), i) == (
        match crate::content::decode_candidates_from(es, i) {
            Some(vs) => Some(vs.push(v)),
            None => None,
        }),
    decreases es.len() - i,
{
    let w = es.push(e);
    if i < es.len() {
        assert(w[i] == es[i]);
        lemma_decode_candidates_snoc(es, e, v, i + 1);
        if let Some(x) = crate::content::decode_candidate(es[i]) {
            if let Some(vs) = crate::content::decode_candidates_from(es, i + 1) {
                assert(seq![x] + vs.push(v) =~= (seq![x] + vs).push(v));
            }
        }
    } else {
        assert(w[i] == e);
        assert(crate::content::decode_candidates_from(w, i + 1) == Some(
            Seq::<crate::content::CandidateView>::empty(),
        ));
        assert(crate::content::decode_candidates_from(es, i) == Some(
            Seq::<crate::content::CandidateView>::empty(),
        ));
        assert(seq![v] + Seq::<crate::content::CandidateView>::empty() =~= Seq::<
            crate::content::CandidateView,
        >::empty().push(v));
    }
}

/// Serializes the usage metadata; absent counts are written as nulls.
fn gc_usage_to_json(u: &crate::content::UsageMetadata) -> (r: Json)
    ensures
        crate::content::decode_usage(jview(r)) == Some(*u),
        wf_json(jview(r)),
{
    let mut fs: Vec<(String, Json)> = Vec::new();
    fs.push((owned("promptTokenCount"), opt_count(u.prompt_token_count)));
    fs.push((owned("candidatesTokenCount"), opt_count(u.candidates_token_count)));
    fs.push((owned("totalTokenCount"), opt_count(u.total_token_count)));
    fs.push((owned("cachedContentTokenCount"), opt_count(u.cached_content_token_count)));
    let r = Json::Obj(fs);
    proof {
        reveal_with_fuel(crate::decode::find_field, 6);
        reveal_strlit("promptTokenCount");
        reveal_strlit("candidatesTokenCount");
        reveal_strlit("totalTokenCount");
        reveal_strlit("cachedContentTokenCount");
        assert("promptTokenCount"@[0] == 'p');
        assert("candidatesTokenCount"@[0] == 'c');
        assert("totalTokenCount"@[0] == 't');
        assert("cachedContentTokenCount"@[0] == 'c');
        assert("cachedContentTokenCount"@.len() == 23);
        assert("candidatesTokenCount"@.len() == 20);
        let fsv = jview_fields(r->Obj_0@);
        crate::decode::lemma_jview_fields_index(r->Obj_0@, 0);
        crate::decode::lemma_jview_fields_index(r->Obj_0@, 1);
        crate::decode::lemma_jview_fields_index(r->Obj_0@, 2);
        crate::decode::lemma_jview_fields_index(r->Obj_0@, 3);
        assert(crate::decode::opt_u32_field(fsv, "promptTokenCount"@) == Some(
            u.prompt_token_count,
        ));
        assert(crate::decode::opt_u32_field(fsv, "candidatesTokenCount"@) == Some(
            u.candidates_token_count,
        ));
        assert(crate::decode::opt_u32_field(fsv, "totalTokenCount"@) == Some(
            u.total_token_count,
        ));
        assert(crate::decode::opt_u32_field(fsv, "cachedContentTokenCount"@) == Some(
            u.cached_content_token_count,
        ));
        assert(forall|k: int| 0 <= k < fsv.len() ==> wf_json(#[trigger] fsv[k].1));
    }
    r
}

/// An optional count: its digits, or null.
fn opt_count(v: Option<u32>) -> (r: Json)
    ensures
        match v {
            Some(n) => r is Num && crate::spec_parse_u32(r->Num_0@) == Some(n) && wf_json(
                jview(r),
            ),
            None => r is Null,
        },
{
    match v {
        Some(n) => {
            let t = Json::Num(chars_to_string(&u32_to_text(n)));
            proof {
                assert(wf_json(jview(t)));
            }
            t
        },
        None => Json::Null,
    }
}

/// Serializes a text-only success object and proves the round trip:
/// the rendered text parses back as one JSON value whose strict
/// decoding is exactly the original object. Absent options are written
/// as nulls, which decode back to absent.
pub fn encode_generate_content_response(x: &crate::content::GenerateContentResponse) -> (r:
    String)
    requires
        text_only_response(*x),
    ensures
        parse_text(r@) matches Some(j) && crate::content::decode_response(j) == Some(
            crate::content::response_view(*x),
        ),
{
    let cands: Json = match &x.candidates {
        Some(cs) => {
            let mut es: Vec<Json> = Vec::new();
            let mut i: usize = 0;
            proof {
                assert(jview_seq(es@) =~= Seq::<JsonView>::empty());
                assert(Seq::new(0, |k: int| crate::content::candidate_view(cs@[k])) =~= Seq::<
                    crate::content::CandidateView,
                >::empty());
            }
            while i < cs.len()
                invariant
                    0 <= i <= cs@.len(),
                    forall|k: int| 0 <= k < cs@.len() ==> text_only_candidate(#[trigger] cs@[k]),
                    crate::content::decode_candidates_from(jview_seq(es@), 0) == Some(
                        Seq::new(i as nat, |k: int| crate::content::candidate_view(cs@[k])),
                    ),
                    forall|k: int|
                        0 <= k < jview_seq(es@).len() ==> wf_json(#[trigger] jview_seq(es@)[k]),
                decreases cs@.len() - i,
            {
                let b = gc_candidate_to_json(&cs[i]);
                let ghost old_es = es@;
                let ghost gb = b;
                es.push(b);
                proof {
                    assert(es@ =~= old_es.push(gb));
                    crate::json_exec::lemma_jview_seq_snoc(old_es, gb);
                    lemma_decode_candidates_snoc(
                        jview_seq(old_es),
                        jview(gb),
                        crate::content::candidate_view(cs@[i as int]),
                        0,
                    );
                    assert(Seq::new(
                        (i + 1) as nat,
                        |k: int| crate::content::candidate_view(cs@[k]),
                    ) =~= Seq::new(i as nat, |k: int| crate::content::candidate_view(cs@[k])).push(
                        crate::content::candidate_view(cs@[i as int]),
                    ));
                    crate::json::lemma_jview_seq_len(es@);
                    assert(forall|k: int|
                        0 <= k < jview_seq(es@).len() ==> wf_json(
                            #[trigger] jview_seq(es@)[k],
                        )) by {
                        assert(forall|k: int|
                            0 <= k < jview_seq(old_es).len() ==> jview_seq(es@)[k] == jview_seq(
                                old_es,
                            )[k]);
                    }
                }
                i = i + 1;
            }
            proof {
                assert(Seq::new(cs@.len(), |k: int| crate::content::candidate_view(cs@[k]))
                    =~= crate::content::candidates_views(cs@));
            }
            Json::Arr(es)
        },
        None => Json::Null,
    };
    let usage: Json = match &x.usage_metadata {
        Some(u) => gc_usage_to_json(u),
        None => Json::Null,
    };
    let mut fs: Vec<(String, Json)> = Vec::new();
    fs.push((owned("candidates"), cands));
    fs.push((owned("promptFeedback"), Json::Null));
    fs.push((owned("usageMetadata"), usage));
    let obj = Json::Obj(fs);
    proof {
        reveal_with_fuel(crate::decode::find_field, 5);
        reveal_strlit("candidates");
        reveal_strlit("promptFeedback");
        reveal_strlit("usageMetadata");
        assert("candidates"@[0] == 'c');
        assert("promptFeedback"@[0] == 'p');
        assert("usageMetadata"@[0] == 'u');
        let fsv = jview_fields(obj->Obj_0@);
        crate::decode::lemma_jview_fields_index(obj->Obj_0@, 0);
        crate::decode::lemma_jview_fields_index(obj->Obj_0@, 1);
        crate::decode::lemma_jview_fields_index(obj->Obj_0@, 2);
        assert(crate::decode::get_field(fsv, "candidates"@) == Some(fsv[0].1));
        assert(crate::decode::get_field(fsv, "promptFeedback"@) == Some(JsonView::Null));
        assert(crate::decode::get_field(fsv, "usageMetadata"@) == Some(fsv[2].1));
        assert(crate::content::decode_response(jview(obj)) == Some(
            crate::content::response_view(*x),
        ));
        assert(forall|k: int| 0 <= k < fsv.len() ==> wf_json(#[trigger] fsv[k].1));
        assert(wf_json(jview(obj)));
        crate::json_proofs::lemma_parse_text_render(jview(obj));
    }
    json_to_string(&obj)
}

} // verus!
