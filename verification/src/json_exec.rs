//! Executable JSON parsing and rendering, refined against the
//! specification-level parser and renderer.

use vstd::prelude::*;

use crate::json::{
    digits_end, lemma_digits_end_bounds, escape_char, escape_text, hex_digit, hex_value, is_hex_digit, is_json_digit,
    jview, jview_fields, jview_seq, parse_elems, parse_elems_tail, parse_member_after_comma,
    parse_member_entry, parse_members, parse_members_tail, parse_colon_value, parse_str_body,
    parse_text, parse_value, render, render_elems, render_member, render_members, scan_number,
    skip_ws, str_body_cons, Json, JsonView,
};
use crate::text::{char_from_u32, chars_to_string, str_to_chars};

verus! {

/// Prepending an element to a value sequence prepends its shape.
proof fn lemma_jview_seq_cons(v: Json, vs: Seq<Json>)
    ensures
        jview_seq(seq![v] + vs) == seq![jview(v)] + jview_seq(vs),
{
    let w = seq![v] + vs;
    assert(w.drop_first() =~= vs);
    assert(w[0] == v);
}

/// Prepending a member to a member sequence prepends its shape.
proof fn lemma_jview_fields_cons(k: String, v: Json, fs: Seq<(String, Json)>)
    ensures
        jview_fields(seq![(k, v)] + fs) == seq![(k@, jview(v))] + jview_fields(fs),
{
    let w = seq![(k, v)] + fs;
    assert(w.drop_first() =~= fs);
    assert(w[0] == (k, v));
}

/// Whether a character is JSON whitespace.
fn ws_x(c: char) -> (b: bool)
    ensures
        b == crate::json::is_ws(c),
{
    c == ' ' || c == '\t' || c == '\n' || c == '\r'
}

/// The numeric value of a hexadecimal digit.
fn hex_val_x(c: char) -> (r: u32)
    requires
        is_hex_digit(c),
    ensures
        r as int == hex_value(c),
        r <= 15,
{
    if c >= '0' && c <= '9' {
        (c as u32) - ('0' as u32)
    } else if c >= 'a' && c <= 'f' {
        (c as u32) - ('a' as u32) + 10
    } else {
        (c as u32) - ('A' as u32) + 10
    }
}

/// The end of the run of decimal digits starting at `i`.
fn digits_end_x(s: &Vec<char>, i: usize) -> (r: usize)
    requires
        i <= s@.len(),
    ensures
        r as int == digits_end(s@, i as int),
        i <= r <= s@.len(),
{
    let mut j = i;
    while j < s.len() && s[j] >= '0' && s[j] <= '9'
        invariant
            i <= j <= s@.len(),
            digits_end(s@, i as int) == digits_end(s@, j as int),
        decreases s@.len() - j,
    {
        j = j + 1;
    }
    j
}

/// Copies the characters in `a .. b` into a fresh vector.
fn copy_range(s: &Vec<char>, a: usize, b: usize) -> (r: Vec<char>)
    requires
        a <= b <= s@.len(),
    ensures
        r@ == s@.subrange(a as int, b as int),
{
    let mut r: Vec<char> = Vec::new();
    let mut k = a;
    while k < b
        invariant
            a <= k <= b <= s@.len(),
            r@ == s@.subrange(a as int, k as int),
        decreases b - k,
    {
        r.push(s[k]);
        assert(r@ =~= s@.subrange(a as int, k + 1));
        k = k + 1;
    }
    r
}

/// Scans a number lexeme at `i`, as `scan_number` does.
fn p_number(s: &Vec<char>, i: usize) -> (r: Option<(Vec<char>, usize)>)
    requires
        i <= s@.len(),
    ensures
        r matches Some(p) ==> scan_number(s@, i as int) == Some((p.0@, p.1 as int)) && i < p.1
            <= s@.len(),
        r is None ==> scan_number(s@, i as int) is None,
{
    let j0 = if i < s.len() && s[i] == '-' {
        i + 1
    } else {
        i
    };
    if !(j0 < s.len() && s[j0] >= '0' && s[j0] <= '9') {
        return None;
    }
    let j1 = if s[j0] == '0' {
        j0 + 1
    } else {
        proof {
            lemma_digits_end_bounds(s@, j0 as int + 1);
        }
        digits_end_x(s, j0)
    };
    let j2 = if j1 < s.len() && s[j1] == '.' {
        if !(j1 + 1 < s.len() && s[j1 + 1] >= '0' && s[j1 + 1] <= '9') {
            return None;
        }
        proof {
            lemma_digits_end_bounds(s@, j1 as int + 2);
        }
        digits_end_x(s, j1 + 1)
    } else {
        j1
    };
    if j2 < s.len() && (s[j2] == 'e' || s[j2] == 'E') {
        let j3 = if j2 + 1 < s.len() && (s[j2 + 1] == '+' || s[j2 + 1] == '-') {
            j2 + 2
        } else {
            j2 + 1
        };
        if !(j3 < s.len() && s[j3] >= '0' && s[j3] <= '9') {
            return None;
        }
        proof {
            lemma_digits_end_bounds(s@, j3 as int + 1);
        }
        let jend = digits_end_x(s, j3);
        Some((copy_range(s, i, jend), jend))
    } else {
        Some((copy_range(s, i, j2), j2))
    }
}

/// Parses a string body after the opening quote, as `parse_str_body`
/// does.
fn p_str_body(s: &Vec<char>, i: usize) -> (r: Option<(Vec<char>, usize)>)
    ensures
        r matches Some(p) ==> parse_str_body(s@, i as int) == Some((p.0@, p.1 as int)) && i < p.1
            <= s@.len(),
        r is None ==> parse_str_body(s@, i as int) is None,
    decreases s@.len() - i,
{
    if i >= s.len() {
        return None;
    }
    let c = s[i];
    if c == '"' {
        let empty: Vec<char> = Vec::new();
        assert(empty@ =~= Seq::<char>::empty());
        return Some((empty, i + 1));
    }
    let (dc, ni): (char, usize) = if c == '\\' {
        if i + 1 >= s.len() {
            return None;
        }
        let e = s[i + 1];
        if e == '"' {
            ('"', i + 2)
        } else if e == '\\' {
            ('\\', i + 2)
        } else if e == '/' {
            ('/', i + 2)
        } else if e == 'b' {
            match char_from_u32(8) {
                Some(ch) => (ch, i + 2),
                None => {
                    proof {
                        assert(false);
                    }
                    return None;
                },
            }
        } else if e == 'f' {
            match char_from_u32(12) {
                Some(ch) => (ch, i + 2),
                None => {
                    proof {
                        assert(false);
                    }
                    return None;
                },
            }
        } else if e == 'n' {
            ('\n', i + 2)
        } else if e == 'r' {
            ('\r', i + 2)
        } else if e == 't' {
            ('\t', i + 2)
        } else if e == 'u' {
            if !(s.len() - i >= 6) {
                return None;
            }
            let h0 = s[i + 2];
            let h1 = s[i + 3];
            let h2 = s[i + 4];
            let h3 = s[i + 5];
            let hex_ok = (h0 >= '0' && h0 <= '9') || (h0 >= 'a' && h0 <= 'f') || (h0 >= 'A' && h0
                <= 'F');
            let hex_ok1 = (h1 >= '0' && h1 <= '9') || (h1 >= 'a' && h1 <= 'f') || (h1 >= 'A' && h1
                <= 'F');
            let hex_ok2 = (h2 >= '0' && h2 <= '9') || (h2 >= 'a' && h2 <= 'f') || (h2 >= 'A' && h2
                <= 'F');
            let hex_ok3 = (h3 >= '0' && h3 <= '9') || (h3 >= 'a' && h3 <= 'f') || (h3 >= 'A' && h3
                <= 'F');
            if !(hex_ok && hex_ok1 && hex_ok2 && hex_ok3) {
                return None;
            }
            let n: u32 = hex_val_x(h0) * 4096 + hex_val_x(h1) * 256 + hex_val_x(h2) * 16
                + hex_val_x(h3);
            if n >= 0xD800 && n < 0xE000 {
                return None;
            }
            match char_from_u32(n) {
                Some(ch) => (ch, i + 6),
                None => {
                    proof {
                        assert(false);
                    }
                    return None;
                },
            }
        } else {
            return None;
        }
    } else if ' ' > c {
        return None;
    } else {
        (c, i + 1)
    };
    match p_str_body(s, ni) {
        Some((t, j)) => {
            let mut t = t;
            t.insert(0, dc);
            proof {
                assert(t@ =~= seq![dc] + t@.drop_first());
            }
            Some((t, j))
        },
        None => None,
    }
}

/// Parses one value at `i`, as `parse_value` does.
pub(crate) fn p_value(s: &Vec<char>, i: usize) -> (r: Option<(Json, usize)>)
    ensures
        r matches Some(p) ==> parse_value(s@, i as int) == Some((jview(p.0), p.1 as int)) && i
            < p.1 <= s@.len(),
        r is None ==> parse_value(s@, i as int) is None,
    decreases s@.len() - i, 0int,
{
    if i >= s.len() {
        return None;
    }
    let c = s[i];
    if ws_x(c) {
        return p_value(s, i + 1);
    }
    if c == 'n' {
        if s.len() - i >= 4 && s[i + 1] == 'u' && s[i + 2] == 'l' && s[i + 3] == 'l' {
            return Some((Json::Null, i + 4));
        }
        return None;
    }
    if c == 't' {
        if s.len() - i >= 4 && s[i + 1] == 'r' && s[i + 2] == 'u' && s[i + 3] == 'e' {
            return Some((Json::Bool(true), i + 4));
        }
        return None;
    }
    if c == 'f' {
        if s.len() - i >= 5 && s[i + 1] == 'a' && s[i + 2] == 'l' && s[i + 3] == 's' && s[i + 4]
            == 'e' {
            return Some((Json::Bool(false), i + 5));
        }
        return None;
    }
    if c == '"' {
        return match p_str_body(s, i + 1) {
            Some((t, j)) => Some((Json::Text(chars_to_string(&t)), j)),
            None => None,
        };
    }
    if c == '[' {
        return match p_elems(s, i + 1) {
            Some((vs, j)) => Some((Json::Arr(vs), j)),
            None => None,
        };
    }
    if c == '{' {
        return match p_members(s, i + 1) {
            Some((fs, j)) => Some((Json::Obj(fs), j)),
            None => None,
        };
    }
    if c == '-' || (c >= '0' && c <= '9') {
        return match p_number(s, i) {
            Some((t, j)) => Some((Json::Num(chars_to_string(&t)), j)),
            None => None,
        };
    }
    None
}

/// Parses array elements after the opening bracket, as `parse_elems`
/// does.
fn p_elems(s: &Vec<char>, i: usize) -> (r: Option<(Vec<Json>, usize)>)
    ensures
        r matches Some(p) ==> parse_elems(s@, i as int) == Some((jview_seq(p.0@), p.1 as int))
            && i < p.1 <= s@.len(),
        r is None ==> parse_elems(s@, i as int) is None,
    decreases s@.len() - i, 1int,
{
    if i >= s.len() {
        return None;
    }
    let c = s[i];
    if ws_x(c) {
        return p_elems(s, i + 1);
    }
    if c == ']' {
        let empty: Vec<Json> = Vec::new();
        proof {
            assert(jview_seq(empty@) =~= Seq::<JsonView>::empty());
        }
        return Some((empty, i + 1));
    }
    match p_value(s, i) {
        Some((v0, j)) => match p_etail(s, j) {
            Some((vs, k)) => {
                let mut vs = vs;
                let ghost old_vs = vs@;
                vs.insert(0, v0);
                proof {
                    assert(vs@ =~= seq![v0] + old_vs);
                    lemma_jview_seq_cons(v0, old_vs);
                }
                Some((vs, k))
            },
            None => None,
        },
        None => None,
    }
}

/// Parses what follows an array element, as `parse_elems_tail` does.
fn p_etail(s: &Vec<char>, i: usize) -> (r: Option<(Vec<Json>, usize)>)
    ensures
        r matches Some(p) ==> parse_elems_tail(s@, i as int) == Some(
            (jview_seq(p.0@), p.1 as int),
        ) && i < p.1 <= s@.len(),
        r is None ==> parse_elems_tail(s@, i as int) is None,
    decreases s@.len() - i, 2int,
{
    if i >= s.len() {
        return None;
    }
    let c = s[i];
    if ws_x(c) {
        return p_etail(s, i + 1);
    }
    if c == ']' {
        let empty: Vec<Json> = Vec::new();
        proof {
            assert(jview_seq(empty@) =~= Seq::<JsonView>::empty());
        }
        return Some((empty, i + 1));
    }
    if c == ',' {
        return match p_value(s, i + 1) {
            Some((v0, j)) => match p_etail(s, j) {
                Some((vs, k)) => {
                    let mut vs = vs;
                    let ghost old_vs = vs@;
                    vs.insert(0, v0);
                    proof {
                        assert(vs@ =~= seq![v0] + old_vs);
                        lemma_jview_seq_cons(v0, old_vs);
                    }
                    Some((vs, k))
                },
                None => None,
            },
            None => None,
        };
    }
    None
}

/// Parses object members after the opening brace, as `parse_members`
/// does.
fn p_members(s: &Vec<char>, i: usize) -> (r: Option<(Vec<(String, Json)>, usize)>)
    ensures
        r matches Some(p) ==> parse_members(s@, i as int) == Some(
            (jview_fields(p.0@), p.1 as int),
        ) && i < p.1 <= s@.len(),
        r is None ==> parse_members(s@, i as int) is None,
    decreases s@.len() - i, 2int,
{
    if i >= s.len() {
        return None;
    }
    let c = s[i];
    if ws_x(c) {
        return p_members(s, i + 1);
    }
    if c == '}' {
        let empty: Vec<(String, Json)> = Vec::new();
        proof {
            assert(jview_fields(empty@) =~= Seq::<(Seq<char>, JsonView)>::empty());
        }
        return Some((empty, i + 1));
    }
    p_entry(s, i)
}

/// Parses one member and the tail after it, as `parse_member_entry`
/// does.
fn p_entry(s: &Vec<char>, i: usize) -> (r: Option<(Vec<(String, Json)>, usize)>)
    ensures
        r matches Some(p) ==> parse_member_entry(s@, i as int) == Some(
            (jview_fields(p.0@), p.1 as int),
        ) && i < p.1 <= s@.len(),
        r is None ==> parse_member_entry(s@, i as int) is None,
    decreases s@.len() - i, 1int,
{
    if !(i < s.len() && s[i] == '"') {
        return None;
    }
    match p_str_body(s, i + 1) {
        Some((k, j)) => match p_colon_value(s, j) {
            Some((v, j2)) => match p_mtail(s, j2) {
                Some((fs, j3)) => {
                    let mut fs = fs;
                    let key = chars_to_string(&k);
                    let ghost old_fs = fs@;
                    let ghost gkey = key;
                    let ghost gv = v;
                    fs.insert(0, (key, v));
                    proof {
                        assert(fs@ =~= seq![(gkey, gv)] + old_fs);
                        lemma_jview_fields_cons(gkey, gv, old_fs);
                    }
                    Some((fs, j3))
                },
                None => None,
            },
            None => None,
        },
        None => None,
    }
}

/// Parses a colon then a value, as `parse_colon_value` does.
fn p_colon_value(s: &Vec<char>, i: usize) -> (r: Option<(Json, usize)>)
    ensures
        r matches Some(p) ==> parse_colon_value(s@, i as int) == Some((jview(p.0), p.1 as int))
            && i < p.1 <= s@.len(),
        r is None ==> parse_colon_value(s@, i as int) is None,
    decreases s@.len() - i, 1int,
{
    if i >= s.len() {
        return None;
    }
    let c = s[i];
    if ws_x(c) {
        return p_colon_value(s, i + 1);
    }
    if c == ':' {
        return p_value(s, i + 1);
    }
    None
}

/// Parses what follows an object member, as `parse_members_tail` does.
fn p_mtail(s: &Vec<char>, i: usize) -> (r: Option<(Vec<(String, Json)>, usize)>)
    ensures
        r matches Some(p) ==> parse_members_tail(s@, i as int) == Some(
            (jview_fields(p.0@), p.1 as int),
        ) && i < p.1 <= s@.len(),
        r is None ==> parse_members_tail(s@, i as int) is None,
    decreases s@.len() - i, 3int,
{
    if i >= s.len() {
        return None;
    }
    let c = s[i];
    if ws_x(c) {
        return p_mtail(s, i + 1);
    }
    if c == '}' {
        let empty: Vec<(String, Json)> = Vec::new();
        proof {
            assert(jview_fields(empty@) =~= Seq::<(Seq<char>, JsonView)>::empty());
        }
        return Some((empty, i + 1));
    }
    if c == ',' {
        return p_after_comma(s, i + 1);
    }
    None
}

/// Skips whitespace after a comma, then parses the next member, as
/// `parse_member_after_comma` does.
fn p_after_comma(s: &Vec<char>, i: usize) -> (r: Option<(Vec<(String, Json)>, usize)>)
    ensures
        r matches Some(p) ==> parse_member_after_comma(s@, i as int) == Some(
            (jview_fields(p.0@), p.1 as int),
        ) && i < p.1 <= s@.len(),
        r is None ==> parse_member_after_comma(s@, i as int) is None,
    decreases s@.len() - i, 2int,
{
    if i >= s.len() {
        return None;
    }
    if ws_x(s[i]) {
        return p_after_comma(s, i + 1);
    }
    p_entry(s, i)
}

/// The position after the whitespace run at `i`, as `skip_ws` gives it.
fn skip_ws_x(s: &Vec<char>, i: usize) -> (r: usize)
    requires
        i <= s@.len(),
    ensures
        r as int == skip_ws(s@, i as int),
        i <= r <= s@.len(),
{
    let mut j = i;
    while j < s.len() && (s[j] == ' ' || s[j] == '\t' || s[j] == '\n' || s[j] == '\r')
        invariant
            i <= j <= s@.len(),
            skip_ws(s@, i as int) == skip_ws(s@, j as int),
        decreases s@.len() - j,
    {
        j = j + 1;
    }
    j
}

/// Parses a whole chunk of text as one JSON value: a single value with
/// nothing but whitespace around it, exactly as `parse_text` describes.
pub fn json_parse_chars(s: &Vec<char>) -> (r: Option<Json>)
    ensures
        r matches Some(v) ==> parse_text(s@) == Some(jview(v)),
        r is None ==> parse_text(s@) is None,
{
    match p_value(s, 0) {
        Some((v, j)) => {
            if skip_ws_x(s, j) == s.len() {
                Some(v)
            } else {
                None
            }
        },
        None => None,
    }
}

/// Appending a character to a text appends its escape to the rendering.
proof fn lemma_escape_text_snoc(t: Seq<char>, c: char)
    ensures
        escape_text(t.push(c)) == escape_text(t) + escape_char(c),
    decreases t.len(),
{
    if t.len() == 0 {
        assert(t.push(c).drop_first() =~= Seq::<char>::empty());
        assert(escape_text(t) + escape_char(c) =~= escape_char(c) + escape_text(
            Seq::<char>::empty(),
        ));
    } else {
        assert(t.push(c).drop_first() =~= t.drop_first().push(c));
        lemma_escape_text_snoc(t.drop_first(), c);
        assert(escape_char(t[0]) + (escape_text(t.drop_first()) + escape_char(c)) =~= escape_text(
            t,
        ) + escape_char(c));
    }
}

/// Appending a value to a sequence appends its shape.
pub(crate) proof fn lemma_jview_seq_snoc(s: Seq<Json>, x: Json)
    ensures
        jview_seq(s.push(x)) == jview_seq(s).push(jview(x)),
    decreases s.len(),
{
    if s.len() == 0 {
        let w = s.push(x);
        assert(w[0] == x);
        assert(w.drop_first() =~= Seq::<Json>::empty());
        assert(jview_seq(w.drop_first()) =~= Seq::<JsonView>::empty());
        assert(s =~= Seq::<Json>::empty());
        assert(jview_seq(s) =~= Seq::<JsonView>::empty());
        assert(seq![jview(x)] + Seq::<JsonView>::empty() =~= jview_seq(s).push(jview(x)));
    } else {
        assert(s.push(x).drop_first() =~= s.drop_first().push(x));
        lemma_jview_seq_snoc(s.drop_first(), x);
        assert(seq![jview(s[0])] + jview_seq(s.drop_first()).push(jview(x)) =~= jview_seq(
            s,
        ).push(jview(x)));
    }
}

/// Appending a member to a sequence appends its shape.
pub(crate) proof fn lemma_jview_fields_snoc(s: Seq<(String, Json)>, x: (String, Json))
    ensures
        jview_fields(s.push(x)) == jview_fields(s).push((x.0@, jview(x.1))),
    decreases s.len(),
{
    if s.len() == 0 {
        let w = s.push(x);
        assert(w[0] == x);
        assert(w.drop_first() =~= Seq::<(String, Json)>::empty());
        assert(jview_fields(w.drop_first()) =~= Seq::<(Seq<char>, JsonView)>::empty());
        assert(s =~= Seq::<(String, Json)>::empty());
        assert(jview_fields(s) =~= Seq::<(Seq<char>, JsonView)>::empty());
        assert(seq![(x.0@, jview(x.1))] + Seq::<(Seq<char>, JsonView)>::empty() =~= jview_fields(
            s,
        ).push((x.0@, jview(x.1))));
    } else {
        assert(s.push(x).drop_first() =~= s.drop_first().push(x));
        lemma_jview_fields_snoc(s.drop_first(), x);
        assert(seq![(s[0].0@, jview(s[0].1))] + jview_fields(s.drop_first()).push(
            (x.0@, jview(x.1)),
        ) =~= jview_fields(s).push((x.0@, jview(x.1))));
    }
}

/// Appending an element extends the joined rendering with a comma where
/// one is due.
proof fn lemma_render_elems_snoc(vs: Seq<JsonView>, x: JsonView)
    ensures
        vs.len() == 0 ==> render_elems(vs.push(x)) == render(x),
        vs.len() > 0 ==> render_elems(vs.push(x)) == render_elems(vs) + seq![','] + render(x),
    decreases vs.len(),
{
    if vs.len() == 0 {
        assert(vs.push(x)[0] == x);
    } else if vs.len() == 1 {
        assert(vs.push(x).drop_first() =~= seq![x]);
        assert(render_elems(seq![x]) == render(x));
        assert(render(vs[0]) + seq![','] + render(x) =~= render(vs[0]) + (seq![','] + render(x)));
    } else {
        assert(vs.push(x).drop_first() =~= vs.drop_first().push(x));
        lemma_render_elems_snoc(vs.drop_first(), x);
        assert(render(vs[0]) + seq![','] + (render_elems(vs.drop_first()) + seq![','] + render(x))
            =~= render_elems(vs) + seq![','] + render(x));
    }
}

/// Appending a member extends the joined rendering with a comma where
/// one is due.
proof fn lemma_render_members_snoc(fs: Seq<(Seq<char>, JsonView)>, x: (Seq<char>, JsonView))
    ensures
        fs.len() == 0 ==> render_members(fs.push(x)) == render_member(x),
        fs.len() > 0 ==> render_members(fs.push(x)) == render_members(fs) + seq![',']
            + render_member(x),
    decreases fs.len(),
{
    if fs.len() == 0 {
        assert(fs.push(x)[0] == x);
    } else if fs.len() == 1 {
        assert(fs.push(x).drop_first() =~= seq![x]);
        assert(render_members(seq![x]) == render_member(x));
        assert(render_member(fs[0]) + seq![','] + render_member(x) =~= render_member(fs[0]) + (
        seq![','] + render_member(x)));
    } else {
        assert(fs.push(x).drop_first() =~= fs.drop_first().push(x));
        lemma_render_members_snoc(fs.drop_first(), x);
        assert(render_member(fs[0]) + seq![','] + (render_members(fs.drop_first()) + seq![',']
            + render_member(x)) =~= render_members(fs) + seq![','] + render_member(x));
    }
}

/// The lower-case hexadecimal digit character for a value below 16.
fn hex_digit_x(n: u32) -> (r: char)
    requires
        n < 16,
    ensures
        r == hex_digit(n as int),
{
    let code: u32 = if n < 10 {
        ('0' as u32) + n
    } else {
        ('a' as u32) + (n - 10)
    };
    match char_from_u32(code) {
        Some(ch) => ch,
        None => {
            proof {
                assert(false);
            }
            '0'
        },
    }
}

/// Writes one character of a string body, escaping as `escape_char`
/// prescribes.
fn push_escaped(out: &mut Vec<char>, c: char)
    ensures
        final(out)@ == old(out)@ + escape_char(c),
{
    if c == '"' {
        out.push('\\');
        out.push('"');
        assert(out@ =~= old(out)@ + escape_char(c));
    } else if c == '\\' {
        out.push('\\');
        out.push('\\');
        assert(out@ =~= old(out)@ + escape_char(c));
    } else if ' ' > c {
        let n = c as u32;
        out.push('\\');
        out.push('u');
        out.push('0');
        out.push('0');
        out.push(hex_digit_x(n / 16));
        out.push(hex_digit_x(n % 16));
        assert(out@ =~= old(out)@ + escape_char(c));
    } else {
        out.push(c);
        assert(out@ =~= old(out)@ + escape_char(c));
    }
}

/// Writes a quoted, escaped string.
fn push_quoted(out: &mut Vec<char>, t: &str)
    ensures
        final(out)@ == old(out)@ + seq!['"'] + escape_text(t@) + seq!['"'],
{
    let cs = str_to_chars(t);
    out.push('"');
    let mut k: usize = 0;
    while k < cs.len()
        invariant
            0 <= k <= cs@.len(),
            cs@ == t@,
            out@ == old(out)@ + seq!['"'] + escape_text(t@.subrange(0, k as int)),
        decreases cs@.len() - k,
    {
        proof {
            assert(t@.subrange(0, k + 1) =~= t@.subrange(0, k as int).push(t@[k as int]));
            lemma_escape_text_snoc(t@.subrange(0, k as int), t@[k as int]);
        }
        push_escaped(out, cs[k]);
        k = k + 1;
    }
    assert(t@.subrange(0, t@.len() as int) =~= t@);
    out.push('"');
    assert(out@ =~= old(out)@ + seq!['"'] + escape_text(t@) + seq!['"']);
}

/// Renders a value canonically: no whitespace, keys and elements in
/// their held order; exactly the text `render` describes.
#[verifier::rlimit(100)]
pub fn json_write(v: &Json, out: &mut Vec<char>)
    ensures
        final(out)@ == old(out)@ + render(jview(*v)),
    decreases *v,
{
    match v {
        Json::Null => {
            out.push('n');
            out.push('u');
            out.push('l');
            out.push('l');
            assert(out@ =~= old(out)@ + render(jview(*v)));
        },
        Json::Bool(b) => {
            if *b {
                out.push('t');
                out.push('r');
                out.push('u');
                out.push('e');
            } else {
                out.push('f');
                out.push('a');
                out.push('l');
                out.push('s');
                out.push('e');
            }
            assert(out@ =~= old(out)@ + render(jview(*v)));
        },
        Json::Num(t) => {
            let cs = str_to_chars(t.as_str());
            let mut k: usize = 0;
            while k < cs.len()
                invariant
                    0 <= k <= cs@.len(),
                    cs@ == t@,
                    out@ == old(out)@ + t@.subrange(0, k as int),
                decreases cs@.len() - k,
            {
                out.push(cs[k]);
                assert(out@ =~= old(out)@ + t@.subrange(0, k + 1));
                k = k + 1;
            }
            assert(t@.subrange(0, t@.len() as int) =~= t@);
        },
        Json::Text(t) => {
            push_quoted(out, t.as_str());
        },
        Json::Arr(vs) => {
            out.push('[');
            let mut k: usize = 0;
            #[verifier::loop_isolation(false)]
            while k < vs.len()
                invariant
                    0 <= k <= vs@.len(),
                    out@ == old(out)@ + seq!['['] + render_elems(
                        jview_seq(vs@.subrange(0, k as int)),
                    ),
                decreases vs@.len() - k,
            {
                proof {
                    assert(vs@.subrange(0, k + 1) =~= vs@.subrange(0, k as int).push(
                        vs@[k as int],
                    ));
                    lemma_jview_seq_snoc(vs@.subrange(0, k as int), vs@[k as int]);
                    lemma_render_elems_snoc(
                        jview_seq(vs@.subrange(0, k as int)),
                        jview(vs@[k as int]),
                    );
                    if k > 0 {
                        crate::json::lemma_jview_seq_len(vs@.subrange(0, k as int));
                    } else {
                        assert(jview_seq(vs@.subrange(0, 0)).len() == 0);
                    }
                }
                if k > 0 {
                    out.push(',');
                }
                proof {
                    assert(decreases_to!(*v => *vs));
                    assert(decreases_to!(*vs => vs@));
                    assert(decreases_to!(vs@ => vs@[k as int]));
                }
                json_write(&vs[k], out);
                k = k + 1;
            }
            assert(vs@.subrange(0, vs@.len() as int) =~= vs@);
            out.push(']');
            assert(out@ =~= old(out)@ + render(jview(*v)));
        },
        Json::Obj(fs) => {
            out.push('{');
            let mut k: usize = 0;
            #[verifier::loop_isolation(false)]
            while k < fs.len()
                invariant
                    0 <= k <= fs@.len(),
                    out@ == old(out)@ + seq!['{'] + render_members(
                        jview_fields(fs@.subrange(0, k as int)),
                    ),
                decreases fs@.len() - k,
            {
                proof {
                    assert(fs@.subrange(0, k + 1) =~= fs@.subrange(0, k as int).push(
                        fs@[k as int],
                    ));
                    lemma_jview_fields_snoc(fs@.subrange(0, k as int), fs@[k as int]);
                    lemma_render_members_snoc(
                        jview_fields(fs@.subrange(0, k as int)),
                        (fs@[k as int].0@, jview(fs@[k as int].1)),
                    );
                    if k > 0 {
                        crate::json::lemma_jview_fields_len(fs@.subrange(0, k as int));
                    } else {
                        assert(jview_fields(fs@.subrange(0, 0)).len() == 0);
                    }
                }
                if k > 0 {
                    out.push(',');
                }
                push_quoted(out, fs[k].0.as_str());
                out.push(':');
                proof {
                    assert(decreases_to!(*v => *fs));
                    assert(decreases_to!(*fs => fs@));
                    assert(decreases_to!(fs@ => fs@[k as int]));
                    assert(decreases_to!(fs@[k as int] => fs@[k as int].1));
                }
                json_write(&fs[k].1, out);
                assert(out@ =~= old(out)@ + seq!['{'] + render_members(
                    jview_fields(fs@.subrange(0, k + 1)),
                ));
                k = k + 1;
            }
            assert(fs@.subrange(0, fs@.len() as int) =~= fs@);
            out.push('}');
            assert(out@ =~= old(out)@ + render(jview(*v)));
        },
    }
}

/// Renders a value to a `String`.
pub fn json_to_string(v: &Json) -> (r: String)
    ensures
        r@ == render(jview(*v)),
{
    let mut out: Vec<char> = Vec::new();
    json_write(v, &mut out);
    chars_to_string(&out)
}


/// Copies a value tree.
pub fn json_clone(v: &Json) -> (r: Json)
    ensures
        jview(r) == jview(*v),
    decreases *v,
{
    match v {
        Json::Null => Json::Null,
        Json::Bool(b) => Json::Bool(*b),
        Json::Num(t) => {
            let cs = str_to_chars(t.as_str());
            Json::Num(chars_to_string(&cs))
        },
        Json::Text(t) => {
            let cs = str_to_chars(t.as_str());
            Json::Text(chars_to_string(&cs))
        },
        Json::Arr(vs) => {
            let mut out: Vec<Json> = Vec::new();
            let mut k: usize = 0;
            assert(jview_seq(out@) =~= jview_seq(vs@.subrange(0, 0)));
            #[verifier::loop_isolation(false)]
            while k < vs.len()
                invariant
                    0 <= k <= vs@.len(),
                    jview_seq(out@) == jview_seq(vs@.subrange(0, k as int)),
                decreases vs@.len() - k,
            {
                proof {
                    assert(decreases_to!(*v => *vs));
                    assert(decreases_to!(*vs => vs@));
                    assert(decreases_to!(vs@ => vs@[k as int]));
                }
                let c = json_clone(&vs[k]);
                let ghost old_out = out@;
                out.push(c);
                proof {
                    assert(out@ =~= old_out.push(c));
                    lemma_jview_seq_snoc(old_out, c);
                    assert(vs@.subrange(0, k + 1) =~= vs@.subrange(0, k as int).push(
                        vs@[k as int],
                    ));
                    lemma_jview_seq_snoc(vs@.subrange(0, k as int), vs@[k as int]);
                    assert(jview_seq(out@) =~= jview_seq(vs@.subrange(0, k + 1)));
                }
                k = k + 1;
            }
            assert(vs@.subrange(0, vs@.len() as int) =~= vs@);
            Json::Arr(out)
        },
        Json::Obj(fs) => {
            let mut out: Vec<(String, Json)> = Vec::new();
            let mut k: usize = 0;
            assert(jview_fields(out@) =~= jview_fields(fs@.subrange(0, 0)));
            #[verifier::loop_isolation(false)]
            while k < fs.len()
                invariant
                    0 <= k <= fs@.len(),
                    jview_fields(out@) == jview_fields(fs@.subrange(0, k as int)),
                decreases fs@.len() - k,
            {
                proof {
                    assert(decreases_to!(*v => *fs));
                    assert(decreases_to!(*fs => fs@));
                    assert(decreases_to!(fs@ => fs@[k as int]));
                    assert(decreases_to!(fs@[k as int] => fs@[k as int].1));
                }
                let kcs = str_to_chars(fs[k].0.as_str());
                let key = chars_to_string(&kcs);
                let c = json_clone(&fs[k].1);
                let ghost old_out = out@;
                let ghost gpair = (key, c);
                out.push((key, c));
                proof {
                    assert(out@ =~= old_out.push(gpair));
                    lemma_jview_fields_snoc(old_out, gpair);
                    assert(fs@.subrange(0, k + 1) =~= fs@.subrange(0, k as int).push(
                        fs@[k as int],
                    ));
                    lemma_jview_fields_snoc(fs@.subrange(0, k as int), fs@[k as int]);
                    assert(jview_fields(out@) =~= jview_fields(fs@.subrange(0, k + 1)));
                }
                k = k + 1;
            }
            assert(fs@.subrange(0, fs@.len() as int) =~= fs@);
            Json::Obj(out)
        },
    }
}

/// Ten to the given power.
pub open spec fn pow10(n: nat) -> int
    decreases n,
{
    if n == 0 {
        1
    } else {
        10 * pow10((n - 1) as nat)
    }
}

/// Powers of ten are positive.
proof fn lemma_pow10_pos(n: nat)
    ensures
        pow10(n) >= 1,
    decreases n,
{
    if n > 0 {
        lemma_pow10_pos((n - 1) as nat);
    }
}

/// Splitting a product over a sum.
proof fn lemma_mul_split(a: int, b: int, c: int, x: int)
    by (nonlinear_arith)
    requires
        a + b == x,
    ensures
        a * c + b * c == x * c,
{
}

/// The value of a digit string with one digit put in front.
proof fn lemma_digits_value_cons(c: char, t: Seq<char>)
    ensures
        crate::digits_value(seq![c] + t) == crate::digit_value(c) * pow10(t.len()) + crate::digits_value(t),
    decreases t.len(),
{
    let w = seq![c] + t;
    if t.len() == 0 {
        assert(w =~= seq![c]);
        assert(w.last() == c);
        assert(w.drop_last() =~= Seq::<char>::empty());
        assert(crate::digits_value(Seq::<char>::empty()) == 0);
        assert(pow10(0) == 1);
    } else {
        assert(w.drop_last() =~= seq![c] + t.drop_last());
        assert(w.last() == t.last());
        lemma_digits_value_cons(c, t.drop_last());
        let l = (t.len() - 1) as nat;
        assert(crate::digits_value(w) == (crate::digit_value(c) * pow10(l) + crate::digits_value(
            t.drop_last(),
        )) * 10 + crate::digit_value(t.last()));
        lemma_mul_split(
            crate::digit_value(c) * pow10(l),
            crate::digits_value(t.drop_last()),
            10,
            crate::digit_value(c) * pow10(l) + crate::digits_value(t.drop_last()),
        );
        assert(crate::digit_value(c) * pow10(l) * 10 == crate::digit_value(c) * pow10(t.len()))
            by (nonlinear_arith)
            requires
                pow10(t.len()) == 10 * pow10(l),
        ;
    }
}

/// A nonempty run of digits scans to its end.
proof fn lemma_digits_end_all(t: Seq<char>, i: int)
    requires
        0 <= i <= t.len(),
        forall|j: int| 0 <= j < t.len() ==> is_json_digit(#[trigger] t[j]),
    ensures
        digits_end(t, i) == t.len(),
    decreases t.len() - i,
{
    if i < t.len() {
        lemma_digits_end_all(t, i + 1);
    }
}

/// A digit string without a superfluous leading zero is a complete
/// number lexeme.
proof fn lemma_digits_are_lexeme(t: Seq<char>)
    requires
        t.len() >= 1,
        forall|j: int| 0 <= j < t.len() ==> is_json_digit(#[trigger] t[j]),
        t.len() > 1 ==> t[0] != '0',
    ensures
        crate::json::is_number_lexeme(t),
{
    lemma_digits_end_all(t, 0);
    lemma_digits_end_all(t, 1);
    assert(t.subrange(0, t.len() as int) =~= t);
}

/// Prints an unsigned 32-bit value as its decimal digits: the exact
/// lexeme a strict reader parses back to the same value.
pub fn u32_to_text(v: u32) -> (r: Vec<char>)
    ensures
        crate::spec_parse_u32(r@) == Some(v),
        crate::json::is_number_lexeme(r@),
{
    let mut t: Vec<char> = Vec::new();
    if v == 0 {
        t.push('0');
        proof {
            assert(t@ =~= seq!['0']);
            assert(t@.drop_last() =~= Seq::<char>::empty());
            assert(crate::digits_value(Seq::<char>::empty()) == 0);
            assert(t@.last() == '0');
            assert(crate::digits_value(t@) == crate::digits_value(t@.drop_last()) * 10
                + crate::digit_value(t@.last()));
            assert(crate::digits_value(t@) == 0);
            lemma_digits_are_lexeme(t@);
        }
        return t;
    }
    let mut x = v;
    while x > 0
        invariant
            forall|j: int| 0 <= j < t@.len() ==> is_json_digit(#[trigger] t@[j]),
            v as int == (x as int) * pow10(t@.len()) + crate::digits_value(t@),
            x == 0 ==> t@.len() > 0 && t@[0] != '0',
            t@.len() > 0 ==> t@[0] != '0' || x > 0,
            crate::digits_value(t@) >= 0,
            x <= v,
        decreases x,
    {
        let d = x % 10;
        let c = match crate::text::char_from_u32(('0' as u32) + d) {
            Some(c) => c,
            None => {
                proof {
                    assert(false);
                }
                '0'
            },
        };
        let ghost old_t = t@;
        let ghost old_x = x as int;
        t.insert(0, c);
        x = x / 10;
        proof {
            assert(t@ =~= seq![c] + old_t);
            assert(is_json_digit(c));
            assert(crate::digit_value(c) == old_x % 10);
            lemma_digits_value_cons(c, old_t);
            assert((old_x / 10) * 10 + old_x % 10 == old_x);
            lemma_mul_split(
                (old_x / 10) * 10,
                old_x % 10,
                pow10(old_t.len()),
                old_x,
            );
            assert((old_x / 10) * 10 * pow10(old_t.len()) == (old_x / 10) * pow10(t@.len()))
                by (nonlinear_arith)
                requires
                    pow10(t@.len()) == 10 * pow10(old_t.len()),
            ;
            lemma_pow10_pos(old_t.len());
            assert(crate::digit_value(c) * pow10(old_t.len()) >= 0) by (nonlinear_arith)
                requires
                    crate::digit_value(c) >= 0,
                    pow10(old_t.len()) >= 0,
            ;
            if x == 0 {
                assert(old_x < 10);
                assert(crate::digit_value(c) == old_x);
                assert(c != '0');
            }
        }
    }
    proof {
        assert(pow10(t@.len()) * 0 == 0) by (nonlinear_arith);
        assert(crate::digits_value(t@) == v);
        lemma_digits_are_lexeme(t@);
    }
    t
}

} // verus!
