//! Proofs that the canonical rendering of a value parses back to that
//! value, culminating in [`lemma_parse_text_render`].

use vstd::prelude::*;

use crate::json::{
    digits_end, lemma_digits_end_bounds, escape_char, escape_text, hex_digit, hex_value, is_json_digit, is_num_cont, is_ws,
    is_number_lexeme, is_scalar_value, parse_colon_value, parse_elems, parse_elems_tail,
    parse_member_after_comma, parse_member_entry, parse_members, parse_members_tail,
    parse_str_body, parse_text, parse_value, render, render_elems, render_member, render_members,
    scan_number, skip_ws, str_body_cons, wf_json, JsonView,
};

verus! {

/// The rendering of an array's elements and closing bracket, element by
/// element: what remains to parse after each element.
pub open spec fn render_etail(vs: Seq<JsonView>) -> Seq<char>
    decreases vs,
{
    if vs.len() == 0 {
        seq![']']
    } else {
        seq![','] + render(vs[0]) + render_etail(vs.drop_first())
    }
}

/// The rendering of an object's remaining members and closing brace.
pub open spec fn render_mtail(fs: Seq<(Seq<char>, JsonView)>) -> Seq<char>
    decreases fs,
{
    if fs.len() == 0 {
        seq!['}']
    } else {
        seq![','] + render_member(fs[0]) + render_mtail(fs.drop_first())
    }
}

/// Joined elements plus the closing bracket split as first element plus
/// tail.
proof fn lemma_elems_split(vs: Seq<JsonView>)
    ensures
        vs.len() == 0 ==> render_elems(vs) + seq![']'] == seq![']'],
        vs.len() > 0 ==> render_elems(vs) + seq![']'] == render(vs[0]) + render_etail(
            vs.drop_first(),
        ),
    decreases vs,
{
    if vs.len() == 0 {
        assert(render_elems(vs) + seq![']'] =~= seq![']']);
    } else if vs.len() == 1 {
        assert(render_etail(vs.drop_first()) == seq![']']);
        assert(render_elems(vs) + seq![']'] =~= render(vs[0]) + seq![']']);
    } else {
        let rest = vs.drop_first();
        lemma_elems_split(rest);
        assert(render_elems(vs) + seq![']'] =~= render(vs[0]) + (seq![','] + (render_elems(rest)
            + seq![']'])));
        assert(render(rest[0]) + render_etail(rest.drop_first()) == render_elems(rest)
            + seq![']']);
        assert(render(vs[0]) + (seq![','] + (render(rest[0]) + render_etail(rest.drop_first())))
            =~= render(vs[0]) + render_etail(rest));
    }
}

/// Joined members plus the closing brace split as first member plus tail.
proof fn lemma_members_split(fs: Seq<(Seq<char>, JsonView)>)
    ensures
        fs.len() == 0 ==> render_members(fs) + seq!['}'] == seq!['}'],
        fs.len() > 0 ==> render_members(fs) + seq!['}'] == render_member(fs[0]) + render_mtail(
            fs.drop_first(),
        ),
    decreases fs,
{
    if fs.len() == 0 {
        assert(render_members(fs) + seq!['}'] =~= seq!['}']);
    } else if fs.len() == 1 {
        assert(render_mtail(fs.drop_first()) == seq!['}']);
        assert(render_members(fs) + seq!['}'] =~= render_member(fs[0]) + seq!['}']);
    } else {
        let rest = fs.drop_first();
        lemma_members_split(rest);
        assert(render_members(fs) + seq!['}'] =~= render_member(fs[0]) + (seq![','] + (
        render_members(rest) + seq!['}'])));
        assert(render_member(rest[0]) + render_mtail(rest.drop_first()) == render_members(rest)
            + seq!['}']);
        assert(render_member(fs[0]) + (seq![','] + (render_member(rest[0]) + render_mtail(
            rest.drop_first(),
        ))) =~= render_member(fs[0]) + render_mtail(rest));
    }
}

/// A number lexeme is nonempty and starts with a sign or a digit.
proof fn lemma_number_lexeme_shape(t: Seq<char>)
    requires
        is_number_lexeme(t),
    ensures
        t.len() >= 1,
        t[0] == '-' || is_json_digit(t[0]),
{
}

/// A well-formed value renders to nonempty text whose first character is
/// no whitespace and none of the punctuation that closes or separates.
proof fn lemma_render_first(v: JsonView)
    requires
        wf_json(v),
    ensures
        render(v).len() >= 1,
        !is_ws(render(v)[0]),
        render(v)[0] != ']',
        render(v)[0] != '}',
        render(v)[0] != ',',
        render(v)[0] != ':',
{
    match v {
        JsonView::Num(t) => {
            lemma_number_lexeme_shape(t);
        },
        _ => {},
    }
}

/// Digit runs embed: scanning digits inside a larger text that holds the
/// lexeme, with no digit following it, mirrors scanning the lexeme alone.
proof fn lemma_digits_end_embed(x: Seq<char>, s: Seq<char>, i: int, k: int)
    requires
        0 <= i,
        i + x.len() <= s.len(),
        s.subrange(i, i + x.len()) == x,
        0 <= k <= x.len(),
        i + x.len() == s.len() || !is_json_digit(s[i + x.len()]),
    ensures
        digits_end(s, i + k) == i + digits_end(x, k),
    decreases x.len() - k,
{
    if k < x.len() {
        assert(s[i + k] == x[k]) by {
            assert(x[k] == s.subrange(i, i + x.len())[k]);
        }
        if is_json_digit(x[k]) {
            lemma_digits_end_embed(x, s, i, k + 1);
        }
    }
}

/// A number lexeme embeds: scanning at its position inside a larger text
/// yields the lexeme, provided the next character cannot extend a number.
proof fn lemma_scan_number_embed(x: Seq<char>, s: Seq<char>, i: int)
    requires
        is_number_lexeme(x),
        0 <= i,
        i + x.len() <= s.len(),
        s.subrange(i, i + x.len()) == x,
        i + x.len() == s.len() || !is_num_cont(s[i + x.len()]),
    ensures
        scan_number(s, i) == Some((x, i + x.len())),
{
    let n = x.len() as int;
    assert forall|k: int| 0 <= k < n implies s[i + k] == x[k] by {
        assert(x[k] == s.subrange(i, i + n)[k]);
    }
    assert forall|k: int| 0 <= k <= n implies digits_end(s, i + k) == i + digits_end(x, k) by {
        lemma_digits_end_embed(x, s, i, k);
    }
    lemma_number_lexeme_shape(x);
    // Mirror the scan of `x` at 0, step by step, at position `i` in `s`.
    let j0x: int = if x[0] == '-' {
        1
    } else {
        0
    };
    assert(scan_number(x, 0) == Some((x, n)));
    assert(0 <= j0x < n && is_json_digit(x[j0x]));
    let j1x: int = if x[j0x] == '0' {
        j0x + 1
    } else {
        digits_end(x, j0x)
    };
    if x[j0x] != '0' {
        lemma_digits_end_bounds(x, j0x);
    }
    assert(j0x <= j1x <= n);
    if j1x < n && x[j1x] == '.' {
        lemma_digits_end_bounds(x, j1x + 1);
    }
    let j2x: int = if j1x < n && x[j1x] == '.' {
        digits_end(x, j1x + 1)
    } else {
        j1x
    };
    if j2x < n && (x[j2x] == 'e' || x[j2x] == 'E') {
        let j3x: int = if j2x + 1 < n && (x[j2x + 1] == '+' || x[j2x + 1] == '-') {
            j2x + 2
        } else {
            j2x + 1
        };
        lemma_digits_end_bounds(x, j3x);
        assert(x =~= x.subrange(0, n));
        assert(s.subrange(i, i + digits_end(x, j3x)) =~= x.subrange(0, digits_end(x, j3x)));
    } else {
        assert(x =~= x.subrange(0, n));
        // The scan of x alone ends at j2x, so j2x == n.
        assert(j2x == n);
        assert(s.subrange(i, i + j2x) =~= x.subrange(0, j2x));
    }
}

/// The `\u00XX` escape of a control character decodes back to it.
proof fn lemma_control_escape(c: char)
    requires
        ' ' > c,
    ensures
        (c as int) >= 0,
        (c as int) < 0x20,
        hex_value(hex_digit((c as int) / 16)) == (c as int) / 16,
        hex_value(hex_digit((c as int) % 16)) == (c as int) % 16,
        ((c as int) / 16) * 16 + (c as int) % 16 == c as int,
        is_scalar_value(c as int),
        ((c as int) as char) == c,
{
}

/// A rendered string body embeds: parsing at its position inside a larger
/// text decodes the original content and stops after the closing quote.
proof fn lemma_str_body_embed(t: Seq<char>, s: Seq<char>, i: int)
    requires
        0 <= i,
        i + escape_text(t).len() + 1 <= s.len(),
        s.subrange(i, i + escape_text(t).len() + 1) == escape_text(t) + seq!['"'],
    ensures
        parse_str_body(s, i) == Some((t, i + escape_text(t).len() + 1)),
    decreases t.len(),
{
    let e = escape_text(t);
    let full = e + seq!['"'];
    assert forall|k: int| 0 <= k < full.len() implies s[i + k] == full[k] by {
        assert(full[k] == s.subrange(i, i + e.len() + 1)[k]);
    }
    if t.len() == 0 {
        assert(s[i + 0] == full[0]);
        assert(s[i] == '"');
        assert(t =~= Seq::<char>::empty());
    } else {
        let c = t[0];
        let rest = t.drop_first();
        let ec = escape_char(c);
        let er = escape_text(rest);
        assert(e == ec + er);
        assert forall|k: int| 0 <= k < ec.len() implies s[i + k] == ec[k] by {
            assert(full[k] == (ec + er)[k]);
        }
        let i2 = i + ec.len() as int;
        assert(s.subrange(i2, i2 + er.len() + 1) =~= er + seq!['"']) by {
            assert forall|k: int| 0 <= k < er.len() + 1 implies s.subrange(
                i2,
                i2 + er.len() + 1,
            )[k] == (er + seq!['"'])[k] by {
                assert(s[i2 + k] == full[ec.len() + k]);
            }
        }
        lemma_str_body_embed(rest, s, i2);
        assert(seq![c] + rest =~= t);
        assert(s[i + 0] == full[0]);
        if c == '"' {
            assert(s[i] == '\\' && s[i + 1] == '"');
            assert(str_body_cons(s, i + 2, '"') == Some((t, i + e.len() + 1)));
        } else if c == '\\' {
            assert(s[i] == '\\' && s[i + 1] == '\\');
            assert(str_body_cons(s, i + 2, '\\') == Some((t, i + e.len() + 1)));
        } else if ' ' > c {
            assert(s[i] == '\\' && s[i + 1] == 'u' && s[i + 2] == '0' && s[i + 3] == '0');
            assert(s[i + 4] == hex_digit((c as int) / 16));
            assert(s[i + 5] == hex_digit((c as int) % 16));
            let n = hex_value(s[i + 2]) * 4096 + hex_value(s[i + 3]) * 256 + hex_value(s[i + 4])
                * 16 + hex_value(s[i + 5]);
            lemma_control_escape(c);
            assert(hex_value('0') == 0);
            assert(n == c as int);
            assert(is_scalar_value(n));
            assert((n as char) == c);
            assert(str_body_cons(s, i + 6, c) == Some((t, i + e.len() + 1)));
        } else {
            assert(s[i] == c);
            assert(str_body_cons(s, i + 1, c) == Some((t, i + e.len() + 1)));
        }
    }
}

/// A rendered value embeds: parsing at its position inside a larger text
/// yields the value back and stops right after it. For a number the
/// character after the rendering must not be one that could extend it.
proof fn lemma_parse_render(v: JsonView, s: Seq<char>, i: int)
    requires
        wf_json(v),
        0 <= i,
        i + render(v).len() <= s.len(),
        s.subrange(i, i + render(v).len()) == render(v),
        v is Num ==> i + render(v).len() == s.len() || !is_num_cont(s[i + render(v).len()]),
    ensures
        parse_value(s, i) == Some((v, i + render(v).len())),
    decreases v, 0int,
{
    let r = render(v);
    let n = r.len() as int;
    lemma_render_first(v);
    assert forall|k: int| 0 <= k < n implies s[i + k] == r[k] by {
        assert(r[k] == s.subrange(i, i + n)[k]);
    }
    assert(s[i + 0] == r[0]);
    match v {
        JsonView::Null => {},
        JsonView::Bool(_) => {},
        JsonView::Num(t) => {
            lemma_scan_number_embed(t, s, i);
            lemma_number_lexeme_shape(t);
        },
        JsonView::Text(t) => {
            assert(s[i] == '"');
            let e = escape_text(t);
            assert(s.subrange(i + 1, i + 1 + e.len() + 1) =~= e + seq!['"']) by {
                assert forall|k: int| 0 <= k < e.len() + 1 implies s.subrange(
                    i + 1,
                    i + 1 + e.len() + 1,
                )[k] == (e + seq!['"'])[k] by {
                    assert(s[i + 1 + k] == r[1 + k]);
                    assert(r[1 + k] == (seq!['"'] + e + seq!['"'])[1 + k]);
                }
            }
            lemma_str_body_embed(t, s, i + 1);
        },
        JsonView::Arr(vs) => {
            assert(s[i] == '[');
            lemma_elems_split(vs);
            let re = render_elems(vs);
            assert(s.subrange(i + 1, i + 1 + re.len() + 1) =~= re + seq![']']) by {
                assert forall|k: int| 0 <= k < re.len() + 1 implies s.subrange(
                    i + 1,
                    i + 1 + re.len() + 1,
                )[k] == (re + seq![']'])[k] by {
                    assert(s[i + 1 + k] == r[1 + k]);
                    assert(r[1 + k] == (seq!['['] + re + seq![']'])[1 + k]);
                }
            }
            lemma_parse_render_elems(vs, s, i + 1);
        },
        JsonView::Obj(fs) => {
            assert(s[i] == '{');
            lemma_members_split(fs);
            let rm = render_members(fs);
            assert(s.subrange(i + 1, i + 1 + rm.len() + 1) =~= rm + seq!['}']) by {
                assert forall|k: int| 0 <= k < rm.len() + 1 implies s.subrange(
                    i + 1,
                    i + 1 + rm.len() + 1,
                )[k] == (rm + seq!['}'])[k] by {
                    assert(s[i + 1 + k] == r[1 + k]);
                    assert(r[1 + k] == (seq!['{'] + rm + seq!['}'])[1 + k]);
                }
            }
            lemma_parse_render_membs(fs, s, i + 1);
        },
    }
}

/// Rendered array elements embed: parsing after the opening bracket
/// recovers the element sequence.
proof fn lemma_parse_render_elems(vs: Seq<JsonView>, s: Seq<char>, i: int)
    requires
        forall|k: int| 0 <= k < vs.len() ==> wf_json(#[trigger] vs[k]),
        0 <= i,
        i + render_elems(vs).len() + 1 <= s.len(),
        s.subrange(i, i + render_elems(vs).len() + 1) == render_elems(vs) + seq![']'],
    ensures
        parse_elems(s, i) == Some((vs, i + render_elems(vs).len() + 1)),
    decreases vs, 1int,
{
    let full = render_elems(vs) + seq![']'];
    let n = full.len() as int;
    assert forall|k: int| 0 <= k < n implies s[i + k] == full[k] by {
        assert(full[k] == s.subrange(i, i + n)[k]);
    }
    lemma_elems_split(vs);
    assert(s[i + 0] == full[0]);
    if vs.len() == 0 {
        assert(s[i] == ']');
        assert(vs =~= Seq::<JsonView>::empty());
    } else {
        let v0 = vs[0];
        let rest = vs.drop_first();
        let r0 = render(v0);
        let rt = render_etail(rest);
        assert(full == r0 + rt);
        lemma_render_first(v0);
        assert(s[i] == r0[0]);
        assert(s.subrange(i, i + r0.len()) =~= r0) by {
            assert forall|k: int| 0 <= k < r0.len() implies s.subrange(i, i + r0.len())[k] == r0[k]
                by {
                assert(s[i + k] == full[k]);
            }
        }
        let j = i + r0.len() as int;
        assert(rt.len() >= 1);
        assert(s[i + r0.len() as int] == full[r0.len() as int]);
        assert(s[j] == rt[0]);
        assert(rt[0] == ',' || rt[0] == ']');
        lemma_parse_render(v0, s, i);
        assert(s.subrange(j, j + rt.len()) =~= rt) by {
            assert forall|k: int| 0 <= k < rt.len() implies s.subrange(j, j + rt.len())[k] == rt[k]
                by {
                assert(s[j + k] == full[r0.len() + k]);
            }
        }
        lemma_parse_render_etail(rest, s, j);
        assert(seq![v0] + rest =~= vs);
    }
}

/// A rendered array tail embeds: a comma and the next element, repeated,
/// then the closing bracket.
proof fn lemma_parse_render_etail(vs: Seq<JsonView>, s: Seq<char>, i: int)
    requires
        forall|k: int| 0 <= k < vs.len() ==> wf_json(#[trigger] vs[k]),
        0 <= i,
        i + render_etail(vs).len() <= s.len(),
        s.subrange(i, i + render_etail(vs).len()) == render_etail(vs),
    ensures
        parse_elems_tail(s, i) == Some((vs, i + render_etail(vs).len())),
    decreases vs, 1int,
{
    let full = render_etail(vs);
    let n = full.len() as int;
    assert forall|k: int| 0 <= k < n implies s[i + k] == full[k] by {
        assert(full[k] == s.subrange(i, i + n)[k]);
    }
    assert(s[i + 0] == full[0]);
    if vs.len() == 0 {
        assert(s[i] == ']');
        assert(vs =~= Seq::<JsonView>::empty());
    } else {
        let v0 = vs[0];
        let rest = vs.drop_first();
        let r0 = render(v0);
        let rt = render_etail(rest);
        assert(full == seq![','] + r0 + rt);
        assert(s[i] == ',');
        lemma_render_first(v0);
        assert(s.subrange(i + 1, i + 1 + r0.len()) =~= r0) by {
            assert forall|k: int| 0 <= k < r0.len() implies s.subrange(
                i + 1,
                i + 1 + r0.len(),
            )[k] == r0[k] by {
                assert(s[i + 1 + k] == full[1 + k]);
            }
        }
        let j = i + 1 + r0.len() as int;
        assert(rt.len() >= 1);
        assert(s[i + (1 + r0.len() as int)] == full[1 + r0.len() as int]);
        assert(s[j] == full[1 + r0.len() as int]);
        assert(rt[0] == ',' || rt[0] == ']');
        lemma_parse_render(v0, s, i + 1);
        assert(s.subrange(j, j + rt.len()) =~= rt) by {
            assert forall|k: int| 0 <= k < rt.len() implies s.subrange(j, j + rt.len())[k] == rt[k]
                by {
                assert(s[j + k] == full[1 + r0.len() + k]);
            }
        }
        lemma_parse_render_etail(rest, s, j);
        assert(seq![v0] + rest =~= vs);
    }
}

/// Rendered object members embed: parsing after the opening brace
/// recovers the member sequence.
proof fn lemma_parse_render_membs(fs: Seq<(Seq<char>, JsonView)>, s: Seq<char>, i: int)
    requires
        forall|k: int| 0 <= k < fs.len() ==> wf_json(#[trigger] fs[k].1),
        0 <= i,
        i + render_members(fs).len() + 1 <= s.len(),
        s.subrange(i, i + render_members(fs).len() + 1) == render_members(fs) + seq!['}'],
    ensures
        parse_members(s, i) == Some((fs, i + render_members(fs).len() + 1)),
    decreases fs, 2int,
{
    let full = render_members(fs) + seq!['}'];
    let n = full.len() as int;
    assert forall|k: int| 0 <= k < n implies s[i + k] == full[k] by {
        assert(full[k] == s.subrange(i, i + n)[k]);
    }
    lemma_members_split(fs);
    assert(s[i + 0] == full[0]);
    if fs.len() == 0 {
        assert(s[i] == '}');
        assert(fs =~= Seq::<(Seq<char>, JsonView)>::empty());
    } else {
        assert(full == render_member(fs[0]) + render_mtail(fs.drop_first()));
        assert(s[i] == render_member(fs[0])[0]);
        assert(s[i] == '"');
        assert(s.subrange(i, i + full.len()) =~= full);
        lemma_parse_render_entry(fs, s, i);
    }
}

/// One rendered member and the rendered tail after it embed: parsing at
/// the member's opening quote recovers the whole remaining member
/// sequence.
proof fn lemma_parse_render_entry(fs: Seq<(Seq<char>, JsonView)>, s: Seq<char>, i: int)
    requires
        forall|k: int| 0 <= k < fs.len() ==> wf_json(#[trigger] fs[k].1),
        fs.len() > 0,
        0 <= i,
        i + render_member(fs[0]).len() + render_mtail(fs.drop_first()).len() <= s.len(),
        s.subrange(i, i + render_member(fs[0]).len() + render_mtail(fs.drop_first()).len())
            == render_member(fs[0]) + render_mtail(fs.drop_first()),
    ensures
        parse_member_entry(s, i) == Some(
            (fs, i + render_member(fs[0]).len() + render_mtail(fs.drop_first()).len()),
        ),
    decreases fs, 1int,
{
    let key = fs[0].0;
    let v0 = fs[0].1;
    let rest = fs.drop_first();
    let rm = render_member(fs[0]);
    let rt = render_mtail(rest);
    let full = rm + rt;
    let n = full.len() as int;
    assert forall|k: int| 0 <= k < n implies s[i + k] == full[k] by {
        assert(full[k] == s.subrange(i, i + n)[k]);
    }
    let ek = escape_text(key);
    let r0 = render(v0);
    assert(rm == seq!['"'] + ek + seq!['"', ':'] + r0);
    assert(s[i + 0] == full[0]);
    assert(s[i] == '"');
    // The key string body sits right after the opening quote.
    assert(s.subrange(i + 1, i + 1 + ek.len() + 1) =~= ek + seq!['"']) by {
        assert forall|k: int| 0 <= k < ek.len() + 1 implies s.subrange(
            i + 1,
            i + 1 + ek.len() + 1,
        )[k] == (ek + seq!['"'])[k] by {
            assert(s[i + 1 + k] == full[1 + k]);
        }
    }
    lemma_str_body_embed(key, s, i + 1);
    let j = i + 1 + ek.len() + 1;
    assert(s[i + (ek.len() + 2) as int] == full[(ek.len() + 2) as int]);
    assert(s[j] == full[j - i]);
    assert(s[j] == ':');
    // The value follows the colon.
    assert(s.subrange(j + 1, j + 1 + r0.len()) =~= r0) by {
        assert forall|k: int| 0 <= k < r0.len() implies s.subrange(j + 1, j + 1 + r0.len())[k]
            == r0[k] by {
            assert(s[j + 1 + k] == full[j + 1 - i + k]);
        }
    }
    let j2 = j + 1 + r0.len() as int;
    assert(rt.len() >= 1);
    assert(s[i + (ek.len() + 3 + r0.len()) as int] == full[(ek.len() + 3 + r0.len()) as int]);
    assert(s[j2] == full[j2 - i]);
    assert(rt[0] == ',' || rt[0] == '}');
    lemma_parse_render(v0, s, j + 1);
    lemma_render_first(v0);
    assert(s.subrange(j2, j2 + rt.len()) =~= rt) by {
        assert forall|k: int| 0 <= k < rt.len() implies s.subrange(j2, j2 + rt.len())[k] == rt[k]
            by {
            assert(s[j2 + k] == full[j2 - i + k]);
        }
    }
    lemma_parse_render_mtail(rest, s, j2);
    assert(seq![(key, v0)] + rest =~= fs);
}

/// A rendered object tail embeds: a comma and the next member, repeated,
/// then the closing brace.
proof fn lemma_parse_render_mtail(fs: Seq<(Seq<char>, JsonView)>, s: Seq<char>, i: int)
    requires
        forall|k: int| 0 <= k < fs.len() ==> wf_json(#[trigger] fs[k].1),
        0 <= i,
        i + render_mtail(fs).len() <= s.len(),
        s.subrange(i, i + render_mtail(fs).len()) == render_mtail(fs),
    ensures
        parse_members_tail(s, i) == Some((fs, i + render_mtail(fs).len())),
    decreases fs, 2int,
{
    let full = render_mtail(fs);
    let n = full.len() as int;
    assert forall|k: int| 0 <= k < n implies s[i + k] == full[k] by {
        assert(full[k] == s.subrange(i, i + n)[k]);
    }
    assert(s[i + 0] == full[0]);
    if fs.len() == 0 {
        assert(s[i] == '}');
        assert(fs =~= Seq::<(Seq<char>, JsonView)>::empty());
    } else {
        let rest = fs.drop_first();
        let rm = render_member(fs[0]);
        let rt = render_mtail(rest);
        assert(rt.len() >= 1);
        assert(full == seq![','] + rm + rt);
        assert(s[i] == ',');
        assert(s[i + 1] == full[1]);
        assert(s[i + 1] == '"');
        assert(s.subrange(i + 1, i + 1 + rm.len() + rt.len()) =~= rm + rt) by {
            assert forall|k: int| 0 <= k < rm.len() + rt.len() implies s.subrange(
                i + 1,
                i + 1 + rm.len() + rt.len(),
            )[k] == (rm + rt)[k] by {
                assert(s[i + 1 + k] == full[1 + k]);
            }
        }
        lemma_parse_render_entry(fs, s, i + 1);
        assert(parse_member_entry(s, i + 1) == Some(
            (fs, i + 1 + rm.len() + rt.len()),
        ));
        assert(0 <= i + 1 < s.len());
        assert(!is_ws(s[i + 1]));
        assert(parse_member_after_comma(s, i + 1) == parse_member_entry(s, i + 1));
        assert(parse_members_tail(s, i) == parse_member_after_comma(s, i + 1));
        assert(i + render_mtail(fs).len() == i + 1 + rm.len() + rt.len());
    }
}

/// Whitespace skipping stops at once at the end of the text.
proof fn lemma_skip_ws_end(s: Seq<char>, i: int)
    requires
        i >= s.len(),
    ensures
        skip_ws(s, i) == i,
{
}

/// THE round trip at the JSON level: the canonical rendering of a
/// well-formed value parses back to exactly that value.
pub proof fn lemma_parse_text_render(v: JsonView)
    requires
        wf_json(v),
    ensures
        parse_text(render(v)) == Some(v),
{
    let s = render(v);
    assert(s.subrange(0, s.len() as int) =~= s);
    lemma_render_first(v);
    lemma_parse_render(v, s, 0);
    lemma_skip_ws_end(s, s.len() as int);
}

} // verus!

