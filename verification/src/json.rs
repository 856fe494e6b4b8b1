//! A small JSON model: a value tree, a canonical renderer, and a strict
//! parser, all specified against each other.
//!
//! Numbers keep their exact textual lexeme, so no floating-point value is
//! ever computed while decoding; callers that need an integer field parse
//! the lexeme themselves.

use vstd::prelude::*;

verus! {

/// A parsed JSON value. Number lexemes and decoded string contents are
/// held as text.
#[derive(Debug, PartialEq)]
pub enum Json {
    Null,
    Bool(bool),
    Num(String),
    Text(String),
    Arr(Vec<Json>),
    Obj(Vec<(String, Json)>),
}

/// The mathematical shape of a [`Json`] value: the same tree over
/// sequences.
pub enum JsonView {
    Null,
    Bool(bool),
    Num(Seq<char>),
    Text(Seq<char>),
    Arr(Seq<JsonView>),
    Obj(Seq<(Seq<char>, JsonView)>),
}

/// The shape of a value: the same tree over sequences.
pub open spec fn jview(v: Json) -> JsonView
    decreases v, 1int,
{
    match v {
        Json::Null => JsonView::Null,
        Json::Bool(b) => JsonView::Bool(b),
        Json::Num(t) => JsonView::Num(t@),
        Json::Text(t) => JsonView::Text(t@),
        Json::Arr(vs) => JsonView::Arr(jview_seq(vs@)),
        Json::Obj(fs) => JsonView::Obj(jview_fields(fs@)),
    }
}

/// The shapes of a sequence of values.
pub open spec fn jview_seq(vs: Seq<Json>) -> Seq<JsonView>
    decreases vs, 0int,
{
    if vs.len() == 0 {
        Seq::empty()
    } else {
        seq![jview(vs[0])] + jview_seq(vs.drop_first())
    }
}

/// The shapes of a sequence of object members.
pub open spec fn jview_fields(fs: Seq<(String, Json)>) -> Seq<(Seq<char>, JsonView)>
    decreases fs, 0int,
{
    if fs.len() == 0 {
        Seq::empty()
    } else {
        seq![(fs[0].0@, jview(fs[0].1))] + jview_fields(fs.drop_first())
    }
}

/// A value sequence and its shapes have the same length.
pub proof fn lemma_jview_seq_len(vs: Seq<Json>)
    ensures
        jview_seq(vs).len() == vs.len(),
    decreases vs,
{
    if vs.len() > 0 {
        lemma_jview_seq_len(vs.drop_first());
    }
}

/// A member sequence and its shapes have the same length.
pub proof fn lemma_jview_fields_len(fs: Seq<(String, Json)>)
    ensures
        jview_fields(fs).len() == fs.len(),
    decreases fs,
{
    if fs.len() > 0 {
        lemma_jview_fields_len(fs.drop_first());
    }
}

impl View for Json {
    type V = JsonView;

    open spec fn view(&self) -> JsonView {
        jview(*self)
    }
}

/// JSON whitespace.
pub open spec fn is_ws(c: char) -> bool {
    c == ' ' || c == '\t' || c == '\n' || c == '\r'
}

/// A decimal digit.
pub open spec fn is_json_digit(c: char) -> bool {
    '0' <= c && c <= '9'
}

/// A hexadecimal digit.
pub open spec fn is_hex_digit(c: char) -> bool {
    is_json_digit(c) || ('a' <= c && c <= 'f') || ('A' <= c && c <= 'F')
}

/// The value of a hexadecimal digit.
pub open spec fn hex_value(c: char) -> int {
    if is_json_digit(c) {
        (c as int) - ('0' as int)
    } else if 'a' <= c && c <= 'f' {
        (c as int) - ('a' as int) + 10
    } else {
        (c as int) - ('A' as int) + 10
    }
}

/// The lower-case hexadecimal digit for a value below 16.
pub open spec fn hex_digit(n: int) -> char {
    if n < 10 {
        (('0' as int) + n) as char
    } else {
        (('a' as int) + (n - 10)) as char
    }
}

/// A Unicode scalar value, i.e. a value a `char` can hold.
pub open spec fn is_scalar_value(n: int) -> bool {
    0 <= n && (n < 0xD800 || (0xE000 <= n && n <= 0x10FFFF))
}

// ---------------------------------------------------------------------
// Rendering
// ---------------------------------------------------------------------

/// How one character is written inside a JSON string: quote and backslash
/// are escaped, control characters take the `\u00XX` form, and every other
/// character stands for itself.
pub open spec fn escape_char(c: char) -> Seq<char> {
    if c == '"' {
        seq!['\\', '"']
    } else if c == '\\' {
        seq!['\\', '\\']
    } else if ' ' > c {
        seq!['\\', 'u', '0', '0', hex_digit((c as int) / 16), hex_digit((c as int) % 16)]
    } else {
        seq![c]
    }
}

/// The body of a rendered JSON string.
pub open spec fn escape_text(t: Seq<char>) -> Seq<char>
    decreases t.len(),
{
    if t.len() == 0 {
        Seq::empty()
    } else {
        escape_char(t[0]) + escape_text(t.drop_first())
    }
}

/// The canonical rendering of a value: no whitespace, keys and elements
/// in their held order.
pub open spec fn render(v: JsonView) -> Seq<char>
    decreases v,
{
    match v {
        JsonView::Null => seq!['n', 'u', 'l', 'l'],
        JsonView::Bool(b) => if b {
            seq!['t', 'r', 'u', 'e']
        } else {
            seq!['f', 'a', 'l', 's', 'e']
        },
        JsonView::Num(t) => t,
        JsonView::Text(t) => seq!['"'] + escape_text(t) + seq!['"'],
        JsonView::Arr(vs) => seq!['['] + render_elems(vs) + seq![']'],
        JsonView::Obj(fs) => seq!['{'] + render_members(fs) + seq!['}'],
    }
}

/// Array elements joined with commas.
pub open spec fn render_elems(vs: Seq<JsonView>) -> Seq<char>
    decreases vs,
{
    if vs.len() == 0 {
        Seq::empty()
    } else if vs.len() == 1 {
        render(vs[0])
    } else {
        render(vs[0]) + seq![','] + render_elems(vs.drop_first())
    }
}

/// Object members joined with commas, each a quoted key, a colon and a
/// value.
pub open spec fn render_members(fs: Seq<(Seq<char>, JsonView)>) -> Seq<char>
    decreases fs,
{
    if fs.len() == 0 {
        Seq::empty()
    } else if fs.len() == 1 {
        render_member(fs[0])
    } else {
        render_member(fs[0]) + seq![','] + render_members(fs.drop_first())
    }
}

/// One rendered object member.
pub open spec fn render_member(f: (Seq<char>, JsonView)) -> Seq<char>
    decreases f,
{
    seq!['"'] + escape_text(f.0) + seq!['"', ':'] + render(f.1)
}

// ---------------------------------------------------------------------
// Parsing
// ---------------------------------------------------------------------

/// The end of the run of decimal digits that starts at `i`.
pub open spec fn digits_end(s: Seq<char>, i: int) -> int
    decreases s.len() - i,
{
    if 0 <= i < s.len() && is_json_digit(s[i]) {
        digits_end(s, i + 1)
    } else {
        i
    }
}

/// The bounds of a digit run: it starts at `i` and ends in the text.
pub proof fn lemma_digits_end_bounds(s: Seq<char>, i: int)
    requires
        0 <= i <= s.len(),
    ensures
        i <= digits_end(s, i) <= s.len(),
    decreases s.len() - i,
{
    if i < s.len() && is_json_digit(s[i]) {
        lemma_digits_end_bounds(s, i + 1);
    }
}

/// Scans a number lexeme at `i`: an optional minus sign, an integer part
/// with no leading zero, then optional fraction and exponent parts.
/// Returns the lexeme and the position after it.
pub open spec fn scan_number(s: Seq<char>, i: int) -> Option<(Seq<char>, int)> {
    let j0 = if 0 <= i < s.len() && s[i] == '-' {
        i + 1
    } else {
        i
    };
    if !(0 <= j0 < s.len() && is_json_digit(s[j0])) {
        None
    } else {
        let j1 = if s[j0] == '0' {
            j0 + 1
        } else {
            digits_end(s, j0)
        };
        let frac_ok = !(j1 < s.len() && s[j1] == '.') || (j1 + 1 < s.len() && is_json_digit(
            s[j1 + 1],
        ));
        let j2 = if j1 < s.len() && s[j1] == '.' {
            digits_end(s, j1 + 1)
        } else {
            j1
        };
        if !frac_ok {
            None
        } else {
            if j2 < s.len() && (s[j2] == 'e' || s[j2] == 'E') {
                let j3 = if j2 + 1 < s.len() && (s[j2 + 1] == '+' || s[j2 + 1] == '-') {
                    j2 + 2
                } else {
                    j2 + 1
                };
                if j3 < s.len() && is_json_digit(s[j3]) {
                    Some((s.subrange(i, digits_end(s, j3)), digits_end(s, j3)))
                } else {
                    None
                }
            } else {
                Some((s.subrange(i, j2), j2))
            }
        }
    }
}

/// A character that could extend a number lexeme; a rendered number is
/// parsed back whole exactly when the character after it is not one of
/// these.
pub open spec fn is_num_cont(c: char) -> bool {
    is_json_digit(c) || c == '.' || c == 'e' || c == 'E' || c == '+' || c == '-'
}

/// A complete JSON number lexeme.
pub open spec fn is_number_lexeme(t: Seq<char>) -> bool {
    scan_number(t, 0) == Some((t, t.len() as int))
}

/// Parses a string body starting after the opening quote; yields the
/// decoded content and the position after the closing quote.
pub open spec fn parse_str_body(s: Seq<char>, i: int) -> Option<(Seq<char>, int)>
    decreases s.len() - i, 0int,
{
    if !(0 <= i < s.len()) {
        None
    } else if s[i] == '"' {
        Some((Seq::empty(), i + 1))
    } else if s[i] == '\\' {
        if !(i + 1 < s.len()) {
            None
        } else if s[i + 1] == '"' {
            str_body_cons(s, i + 2, '"')
        } else if s[i + 1] == '\\' {
            str_body_cons(s, i + 2, '\\')
        } else if s[i + 1] == '/' {
            str_body_cons(s, i + 2, '/')
        } else if s[i + 1] == 'b' {
            str_body_cons(s, i + 2, 8u32 as char)
        } else if s[i + 1] == 'f' {
            str_body_cons(s, i + 2, 12u32 as char)
        } else if s[i + 1] == 'n' {
            str_body_cons(s, i + 2, '\n')
        } else if s[i + 1] == 'r' {
            str_body_cons(s, i + 2, '\r')
        } else if s[i + 1] == 't' {
            str_body_cons(s, i + 2, '\t')
        } else if s[i + 1] == 'u' {
            if i + 6 <= s.len() && is_hex_digit(s[i + 2]) && is_hex_digit(s[i + 3]) && is_hex_digit(
                s[i + 4],
            ) && is_hex_digit(s[i + 5]) {
                let n = hex_value(s[i + 2]) * 4096 + hex_value(s[i + 3]) * 256 + hex_value(
                    s[i + 4],
                ) * 16 + hex_value(s[i + 5]);
                if is_scalar_value(n) {
                    str_body_cons(s, i + 6, n as char)
                } else {
                    None
                }
            } else {
                None
            }
        } else {
            None
        }
    } else if ' ' > s[i] {
        None
    } else {
        str_body_cons(s, i + 1, s[i])
    }
}

/// Parses the rest of a string body and puts `c` in front of it.
pub open spec fn str_body_cons(s: Seq<char>, i: int, c: char) -> Option<(Seq<char>, int)>
    decreases s.len() - i, 1int,
{
    if i <= 0 {
        None
    } else {
        match parse_str_body(s, i) {
            Some((t, j)) => Some((seq![c] + t, j)),
            None => None,
        }
    }
}

/// Parses one JSON value at `i`, after skipping whitespace; yields the
/// value and the position after it.
pub open spec fn parse_value(s: Seq<char>, i: int) -> Option<(JsonView, int)>
    decreases s.len() - i, 0int,
{
    if !(0 <= i < s.len()) {
        None
    } else if is_ws(s[i]) {
        parse_value(s, i + 1)
    } else if s[i] == 'n' {
        if i + 4 <= s.len() && s[i + 1] == 'u' && s[i + 2] == 'l' && s[i + 3] == 'l' {
            Some((JsonView::Null, i + 4))
        } else {
            None
        }
    } else if s[i] == 't' {
        if i + 4 <= s.len() && s[i + 1] == 'r' && s[i + 2] == 'u' && s[i + 3] == 'e' {
            Some((JsonView::Bool(true), i + 4))
        } else {
            None
        }
    } else if s[i] == 'f' {
        if i + 5 <= s.len() && s[i + 1] == 'a' && s[i + 2] == 'l' && s[i + 3] == 's' && s[i + 4]
            == 'e' {
            Some((JsonView::Bool(false), i + 5))
        } else {
            None
        }
    } else if s[i] == '"' {
        match parse_str_body(s, i + 1) {
            Some((t, j)) => Some((JsonView::Text(t), j)),
            None => None,
        }
    } else if s[i] == '[' {
        match parse_elems(s, i + 1) {
            Some((vs, j)) => Some((JsonView::Arr(vs), j)),
            None => None,
        }
    } else if s[i] == '{' {
        match parse_members(s, i + 1) {
            Some((fs, j)) => Some((JsonView::Obj(fs), j)),
            None => None,
        }
    } else if s[i] == '-' || is_json_digit(s[i]) {
        match scan_number(s, i) {
            Some((t, j)) => Some((JsonView::Num(t), j)),
            None => None,
        }
    } else {
        None
    }
}

/// Parses the elements of an array after its opening bracket: either a
/// closing bracket at once, or a first value followed by its tail.
pub open spec fn parse_elems(s: Seq<char>, i: int) -> Option<(Seq<JsonView>, int)>
    decreases s.len() - i, 1int,
{
    if !(0 <= i < s.len()) {
        None
    } else if is_ws(s[i]) {
        parse_elems(s, i + 1)
    } else if s[i] == ']' {
        Some((Seq::empty(), i + 1))
    } else {
        match parse_value(s, i) {
            Some((v, j)) => if !(i < j <= s.len()) {
                None
            } else {
                match parse_elems_tail(s, j) {
                    Some((vs, k)) => Some((seq![v] + vs, k)),
                    None => None,
                }
            },
            None => None,
        }
    }
}

/// Parses what follows one array element: a closing bracket, or a comma
/// and the next element.
pub open spec fn parse_elems_tail(s: Seq<char>, i: int) -> Option<(Seq<JsonView>, int)>
    decreases s.len() - i, 2int,
{
    if !(0 <= i < s.len()) {
        None
    } else if is_ws(s[i]) {
        parse_elems_tail(s, i + 1)
    } else if s[i] == ']' {
        Some((Seq::empty(), i + 1))
    } else if s[i] == ',' {
        match parse_value(s, i + 1) {
            Some((v, j)) => if !(i + 1 < j <= s.len()) {
                None
            } else {
                match parse_elems_tail(s, j) {
                    Some((vs, k)) => Some((seq![v] + vs, k)),
                    None => None,
                }
            },
            None => None,
        }
    } else {
        None
    }
}

/// Parses the members of an object after its opening brace: either a
/// closing brace at once, or a first member followed by its tail.
pub open spec fn parse_members(s: Seq<char>, i: int) -> Option<(Seq<(Seq<char>, JsonView)>, int)>
    decreases s.len() - i, 2int,
{
    if !(0 <= i < s.len()) {
        None
    } else if is_ws(s[i]) {
        parse_members(s, i + 1)
    } else if s[i] == '}' {
        Some((Seq::empty(), i + 1))
    } else {
        parse_member_entry(s, i)
    }
}

/// Parses one `"key": value` member starting at its opening quote,
/// followed by the object's tail.
pub open spec fn parse_member_entry(s: Seq<char>, i: int) -> Option<
    (Seq<(Seq<char>, JsonView)>, int),
>
    decreases s.len() - i, 1int,
{
    if !(0 <= i < s.len() && s[i] == '"') {
        None
    } else {
        match parse_str_body(s, i + 1) {
            Some((k, j)) => if !(i + 1 < j <= s.len()) {
                None
            } else {
                match parse_colon_value(s, j) {
                    Some((v, j2)) => if !(j < j2 <= s.len()) {
                        None
                    } else {
                        match parse_members_tail(s, j2) {
                            Some((fs, j3)) => Some((seq![(k, v)] + fs, j3)),
                            None => None,
                        }
                    },
                    None => None,
                }
            },
            None => None,
        }
    }
}

/// Parses a colon, then a value.
pub open spec fn parse_colon_value(s: Seq<char>, i: int) -> Option<(JsonView, int)>
    decreases s.len() - i, 1int,
{
    if !(0 <= i < s.len()) {
        None
    } else if is_ws(s[i]) {
        parse_colon_value(s, i + 1)
    } else if s[i] == ':' {
        parse_value(s, i + 1)
    } else {
        None
    }
}

/// Parses what follows one object member: a closing brace, or a comma and
/// the next member.
pub open spec fn parse_members_tail(s: Seq<char>, i: int) -> Option<
    (Seq<(Seq<char>, JsonView)>, int),
>
    decreases s.len() - i, 3int,
{
    if !(0 <= i < s.len()) {
        None
    } else if is_ws(s[i]) {
        parse_members_tail(s, i + 1)
    } else if s[i] == '}' {
        Some((Seq::empty(), i + 1))
    } else if s[i] == ',' {
        parse_member_after_comma(s, i + 1)
    } else {
        None
    }
}

/// Skips whitespace after a comma inside an object, then parses the next
/// member.
pub open spec fn parse_member_after_comma(s: Seq<char>, i: int) -> Option<
    (Seq<(Seq<char>, JsonView)>, int),
>
    decreases s.len() - i, 2int,
{
    if !(0 <= i < s.len()) {
        None
    } else if is_ws(s[i]) {
        parse_member_after_comma(s, i + 1)
    } else {
        parse_member_entry(s, i)
    }
}

/// The position after any whitespace run starting at `i`.
pub open spec fn skip_ws(s: Seq<char>, i: int) -> int
    decreases s.len() - i,
{
    if 0 <= i < s.len() && is_ws(s[i]) {
        skip_ws(s, i + 1)
    } else {
        i
    }
}

/// Parses a whole text as a single JSON value: one value surrounded by
/// nothing but whitespace.
pub open spec fn parse_text(s: Seq<char>) -> Option<JsonView> {
    match parse_value(s, 0) {
        Some((v, j)) => if skip_ws(s, j) == s.len() {
            Some(v)
        } else {
            None
        },
        None => None,
    }
}

/// A value every number lexeme of which is well formed, so that its
/// rendering parses back to it.
pub open spec fn wf_json(v: JsonView) -> bool
    decreases v,
{
    match v {
        JsonView::Null => true,
        JsonView::Bool(_) => true,
        JsonView::Num(t) => is_number_lexeme(t),
        JsonView::Text(_) => true,
        JsonView::Arr(vs) => forall|k: int| 0 <= k < vs.len() ==> wf_json(#[trigger] vs[k]),
        JsonView::Obj(fs) => forall|k: int| 0 <= k < fs.len() ==> wf_json(#[trigger] fs[k].1),
    }
}

} // verus!

