//! Shared helpers for strict typed decoding of parsed JSON objects:
//! field lookup by key, and readers for the primitive field kinds.
//! Unknown additional fields are ignored; a present field of the wrong
//! kind is a mismatch.

use vstd::prelude::*;

use crate::json::{jview, jview_fields, Json, JsonView};
use crate::spec_parse_u32;
use crate::text::chars_to_string;

verus! {

/// The first field with the given key, from `i` on.
pub open spec fn find_field(fs: Seq<(Seq<char>, JsonView)>, k: Seq<char>, i: int) -> Option<
    JsonView,
>
    decreases fs.len() - i,
{
    if !(0 <= i < fs.len()) {
        None
    } else if fs[i].0 == k {
        Some(fs[i].1)
    } else {
        find_field(fs, k, i + 1)
    }
}

/// The first field with the given key.
pub open spec fn get_field(fs: Seq<(Seq<char>, JsonView)>, k: Seq<char>) -> Option<JsonView> {
    find_field(fs, k, 0)
}

/// The shape of one member of a member sequence.
pub proof fn lemma_jview_fields_index(fs: Seq<(String, Json)>, i: int)
    requires
        0 <= i < fs.len(),
    ensures
        jview_fields(fs).len() == fs.len(),
        jview_fields(fs)[i] == (fs[i].0@, jview(fs[i].1)),
    decreases i,
{
    crate::json::lemma_jview_fields_len(fs);
    if i == 0 {
    } else {
        lemma_jview_fields_index(fs.drop_first(), i - 1);
        assert(fs.drop_first()[i - 1] == fs[i]);
    }
}

/// The shape of one element of a value sequence.
pub proof fn lemma_jview_seq_index(vs: Seq<Json>, i: int)
    requires
        0 <= i < vs.len(),
    ensures
        crate::json::jview_seq(vs).len() == vs.len(),
        crate::json::jview_seq(vs)[i] == jview(vs[i]),
    decreases i,
{
    crate::json::lemma_jview_seq_len(vs);
    if i == 0 {
    } else {
        lemma_jview_seq_index(vs.drop_first(), i - 1);
        assert(vs.drop_first()[i - 1] == vs[i]);
    }
}

/// Whether two string slices hold the same characters.
pub fn str_eq(a: &str, b: &str) -> (r: bool)
    ensures
        r == (a@ == b@),
{
    let n = a.unicode_len();
    if n != b.unicode_len() {
        return false;
    }
    let mut i: usize = 0;
    while i < n
        invariant
            n == a@.len() == b@.len(),
            0 <= i <= n,
            forall|j: int| 0 <= j < i ==> a@[j] == b@[j],
        decreases n - i,
    {
        if a.get_char(i) != b.get_char(i) {
            return false;
        }
        i = i + 1;
    }
    proof {
        assert(a@ =~= b@);
    }
    true
}

/// Looks up the first field with the given key in an object's members.
pub fn get_field_x<'a>(fs: &'a Vec<(String, Json)>, k: &str) -> (r: Option<&'a Json>)
    ensures
        r matches Some(v) ==> get_field(jview_fields(fs@), k@) == Some(jview(*v)),
        r is None ==> get_field(jview_fields(fs@), k@) is None,
{
    let mut i: usize = 0;
    proof {
        crate::json::lemma_jview_fields_len(fs@);
    }
    while i < fs.len()
        invariant
            0 <= i <= fs@.len(),
            jview_fields(fs@).len() == fs@.len(),
            find_field(jview_fields(fs@), k@, 0) == find_field(jview_fields(fs@), k@, i as int),
        decreases fs@.len() - i,
    {
        proof {
            lemma_jview_fields_index(fs@, i as int);
        }
        if str_eq(fs[i].0.as_str(), k) {
            return Some(&fs[i].1);
        }
        i = i + 1;
    }
    None
}

/// Reads an optional unsigned 32-bit field: absent or null is `None`;
/// a digit-only number lexeme that fits is `Some`; anything else is a
/// mismatch (outer `None`).
pub open spec fn opt_u32_field(fs: Seq<(Seq<char>, JsonView)>, k: Seq<char>) -> Option<
    Option<u32>,
> {
    match get_field(fs, k) {
        None => Some(None),
        Some(JsonView::Null) => Some(None),
        Some(JsonView::Num(t)) => match spec_parse_u32(t) {
            Some(v) => Some(Some(v)),
            None => None,
        },
        Some(_) => None,
    }
}

/// Reads an optional text field: absent or null is `None`; a string is
/// `Some`; anything else is a mismatch.
pub open spec fn opt_text_field(fs: Seq<(Seq<char>, JsonView)>, k: Seq<char>) -> Option<
    Option<Seq<char>>,
> {
    match get_field(fs, k) {
        None => Some(None),
        Some(JsonView::Null) => Some(None),
        Some(JsonView::Text(t)) => Some(Some(t)),
        Some(_) => None,
    }
}

/// Reads a required text field.
pub open spec fn req_text_field(fs: Seq<(Seq<char>, JsonView)>, k: Seq<char>) -> Option<
    Seq<char>,
> {
    match get_field(fs, k) {
        Some(JsonView::Text(t)) => Some(t),
        _ => None,
    }
}

/// Reads an optional number field, keeping the lexeme: absent or null
/// is `None`; a number is `Some` of its exact text; anything else is a
/// mismatch.
pub open spec fn opt_num_field(fs: Seq<(Seq<char>, JsonView)>, k: Seq<char>) -> Option<
    Option<Seq<char>>,
> {
    match get_field(fs, k) {
        None => Some(None),
        Some(JsonView::Null) => Some(None),
        Some(JsonView::Num(t)) => Some(Some(t)),
        Some(_) => None,
    }
}

/// The shape of an optional `String`.
pub open spec fn view_opt_string(o: Option<String>) -> Option<Seq<char>> {
    match o {
        Some(s) => Some(s@),
        None => None,
    }
}

/// Extracts an optional unsigned 32-bit field as `opt_u32_field`
/// describes.
pub fn opt_u32_field_x(fs: &Vec<(String, Json)>, k: &str) -> (r: Option<Option<u32>>)
    ensures
        r == opt_u32_field(jview_fields(fs@), k@),
{
    match get_field_x(fs, k) {
        None => Some(None),
        Some(Json::Null) => Some(None),
        Some(Json::Num(t)) => {
            let cs = crate::text::str_to_chars(t.as_str());
            match crate::parse_u32_digits(&cs) {
                Some(v) => Some(Some(v)),
                None => None,
            }
        },
        Some(_) => None,
    }
}

/// Extracts an optional text field as `opt_text_field` describes.
pub fn opt_text_field_x(fs: &Vec<(String, Json)>, k: &str) -> (r: Option<Option<String>>)
    ensures
        ({
            let spec = opt_text_field(jview_fields(fs@), k@);
            match r {
                Some(o) => spec == Some(view_opt_string(o)),
                None => spec is None,
            }
        }),
{
    match get_field_x(fs, k) {
        None => Some(None),
        Some(Json::Null) => Some(None),
        Some(Json::Text(t)) => {
            let cs = crate::text::str_to_chars(t.as_str());
            Some(Some(chars_to_string(&cs)))
        },
        Some(_) => None,
    }
}

/// Extracts a required text field as `req_text_field` describes.
pub fn req_text_field_x(fs: &Vec<(String, Json)>, k: &str) -> (r: Option<String>)
    ensures
        ({
            let spec = req_text_field(jview_fields(fs@), k@);
            match r {
                Some(s) => spec == Some(s@),
                None => spec is None,
            }
        }),
{
    match get_field_x(fs, k) {
        Some(Json::Text(t)) => {
            let cs = crate::text::str_to_chars(t.as_str());
            Some(chars_to_string(&cs))
        },
        _ => None,
    }
}

/// Extracts an optional number field's lexeme as `opt_num_field`
/// describes.
pub fn opt_num_field_x(fs: &Vec<(String, Json)>, k: &str) -> (r: Option<Option<String>>)
    ensures
        ({
            let spec = opt_num_field(jview_fields(fs@), k@);
            match r {
                Some(o) => spec == Some(view_opt_string(o)),
                None => spec is None,
            }
        }),
{
    match get_field_x(fs, k) {
        None => Some(None),
        Some(Json::Null) => Some(None),
        Some(Json::Num(t)) => {
            let cs = crate::text::str_to_chars(t.as_str());
            Some(Some(chars_to_string(&cs)))
        },
        Some(_) => None,
    }
}


/// Reads a required unsigned 32-bit field.
pub open spec fn req_u32_field(fs: Seq<(Seq<char>, JsonView)>, k: Seq<char>) -> Option<u32> {
    match get_field(fs, k) {
        Some(JsonView::Num(t)) => spec_parse_u32(t),
        _ => None,
    }
}

/// Extracts a required unsigned 32-bit field as `req_u32_field`
/// describes.
pub fn req_u32_field_x(fs: &Vec<(String, Json)>, k: &str) -> (r: Option<u32>)
    ensures
        r == req_u32_field(jview_fields(fs@), k@),
{
    match get_field_x(fs, k) {
        Some(Json::Num(t)) => {
            let cs = crate::text::str_to_chars(t.as_str());
            crate::parse_u32_digits(&cs)
        },
        _ => None,
    }
}

/// Lifts a tag parser over an optional text field: absent stays
/// absent, a recognized tag maps, an unrecognized tag is a mismatch.
pub open spec fn lift_tag<T>(t: Option<Option<Seq<char>>>, parse: spec_fn(Seq<char>) -> Option<T>) -> Option<Option<T>> {
    match t {
        None => None,
        Some(None) => Some(None),
        Some(Some(s)) => match parse(s) {
            Some(v) => Some(Some(v)),
            None => None,
        },
    }
}

} // verus!
