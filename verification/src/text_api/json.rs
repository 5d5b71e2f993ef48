//! The wire codec's JSON layer: a JSON value model, a verified writer that
//! produces wire text, and a parser that leans on serde_json and hands every
//! parsed document over as a value of this model.

use vstd::prelude::*;

use crate::text_api::common::chars_to_string;

verus! {

broadcast use vstd::seq::axiom_seq_index_decreases, vstd::seq::axiom_seq_subrange_decreases, vstd::std_specs::vec::axiom_vec_decreases_to_view, vstd::std_specs::vec::axiom_vec_index_decreases;

/// A JSON document. Numbers keep their lexical form: integers as machine
/// integers, everything else as the number's text.
#[derive(Debug)]
pub enum JsonValue {
    Null,
    Bool(bool),
    Int(i64),
    Num(String),
    Str(String),
    Arr(Vec<JsonValue>),
    Obj(Vec<(String, JsonValue)>),
}

/// The mathematical value of a [`JsonValue`].
pub enum JsonView {
    Null,
    Bool(bool),
    Int(i64),
    Num(Seq<char>),
    Str(Seq<char>),
    Arr(Seq<JsonView>),
    Obj(Seq<(Seq<char>, JsonView)>),
}

pub open spec fn json_view(v: JsonValue) -> JsonView
    decreases v,
{
    match v {
        JsonValue::Null => JsonView::Null,
        JsonValue::Bool(b) => JsonView::Bool(b),
        JsonValue::Int(i) => JsonView::Int(i),
        JsonValue::Num(t) => JsonView::Num(t@),
        JsonValue::Str(t) => JsonView::Str(t@),
        JsonValue::Arr(items) => JsonView::Arr(json_views(items@)),
        JsonValue::Obj(fields) => JsonView::Obj(json_field_views(fields@)),
    }
}

pub open spec fn json_views(s: Seq<JsonValue>) -> Seq<JsonView>
    decreases s,
{
    if s.len() == 0 {
        Seq::empty()
    } else {
        seq![json_view(s[0])] + json_views(s.drop_first())
    }
}

pub open spec fn json_field_views(s: Seq<(String, JsonValue)>) -> Seq<(Seq<char>, JsonView)>
    decreases s,
{
    if s.len() == 0 {
        Seq::empty()
    } else {
        seq![(s[0].0@, json_view(s[0].1))] + json_field_views(s.drop_first())
    }
}

impl View for JsonValue {
    type V = JsonView;

    open spec fn view(&self) -> JsonView {
        json_view(*self)
    }
}

pub proof fn lemma_json_views_index(s: Seq<JsonValue>, i: int)
    requires
        0 <= i < s.len(),
    ensures
        json_views(s).len() == s.len(),
        json_views(s)[i] == json_view(s[i]),
    decreases s,
{
    lemma_json_views_len(s);
    if i > 0 {
        lemma_json_views_index(s.drop_first(), i - 1);
    }
}

pub proof fn lemma_json_views_len(s: Seq<JsonValue>)
    ensures
        json_views(s).len() == s.len(),
    decreases s,
{
    if s.len() > 0 {
        lemma_json_views_len(s.drop_first());
    }
}

pub proof fn lemma_json_field_views_index(s: Seq<(String, JsonValue)>, i: int)
    requires
        0 <= i < s.len(),
    ensures
        json_field_views(s).len() == s.len(),
        json_field_views(s)[i] == (s[i].0@, json_view(s[i].1)),
    decreases s,
{
    lemma_json_field_views_len(s);
    if i > 0 {
        lemma_json_field_views_index(s.drop_first(), i - 1);
    }
}

pub proof fn lemma_json_field_views_len(s: Seq<(String, JsonValue)>)
    ensures
        json_field_views(s).len() == s.len(),
    decreases s,
{
    if s.len() > 0 {
        lemma_json_field_views_len(s.drop_first());
    }
}

// ---------------------------------------------------------------------------
// The writer
// ---------------------------------------------------------------------------
/// One decimal digit as a character.
pub open spec fn digit_char(n: int) -> char {
    if n == 0 { '0' }
    else if n == 1 { '1' }
    else if n == 2 { '2' }
    else if n == 3 { '3' }
    else if n == 4 { '4' }
    else if n == 5 { '5' }
    else if n == 6 { '6' }
    else if n == 7 { '7' }
    else if n == 8 { '8' }
    else if n == 9 { '9' }
    else { '?' }
}

fn digit_char_exec(n: u64) -> (r: char)
    requires
        n < 10,
    ensures
        r == digit_char(n as int),
{
    match n {
        0 => '0',
        1 => '1',
        2 => '2',
        3 => '3',
        4 => '4',
        5 => '5',
        6 => '6',
        7 => '7',
        8 => '8',
        _ => '9',
    }
}

/// The decimal digits of an unsigned value, most significant first.
pub open spec fn spec_u_digits(n: nat) -> Seq<char>
    decreases n,
{
    if n < 10 {
        seq![digit_char(n as int)]
    } else {
        spec_u_digits(n / 10) + seq![digit_char((n % 10) as int)]
    }
}

/// The decimal text of a signed value.
pub open spec fn spec_i64_text(v: int) -> Seq<char> {
    if v < 0 {
        seq!['-'] + spec_u_digits((-v) as nat)
    } else {
        spec_u_digits(v as nat)
    }
}

fn write_u64(n: u64, out: &mut Vec<char>)
    ensures
        final(out)@ == old(out)@ + spec_u_digits(n as nat),
    decreases n,
{
    if n < 10 {
        out.push(digit_char_exec(n));
        proof {
            assert(out@ =~= old(out)@ + spec_u_digits(n as nat));
        }
    } else {
        write_u64(n / 10, out);
        out.push(digit_char_exec(n % 10));
        proof {
            assert(out@ =~= old(out)@ + spec_u_digits(n as nat));
        }
    }
}

fn write_i64(v: i64, out: &mut Vec<char>)
    ensures
        final(out)@ == old(out)@ + spec_i64_text(v as int),
{
    if v < 0 {
        out.push('-');
        let mag: u64 = if v == i64::MIN {
            9223372036854775808u64
        } else {
            (-v) as u64
        };
        proof {
            assert(mag as nat == (-(v as int)) as nat);
        }
        write_u64(mag, out);
        proof {
            assert(out@ =~= old(out)@ + spec_i64_text(v as int));
        }
    } else {
        write_u64(v as u64, out);
    }
}

/// One hexadecimal digit as a character.
pub open spec fn hex_char(n: int) -> char {
    if n < 10 { digit_char(n) }
    else if n == 10 { 'a' }
    else if n == 11 { 'b' }
    else if n == 12 { 'c' }
    else if n == 13 { 'd' }
    else if n == 14 { 'e' }
    else if n == 15 { 'f' }
    else { '?' }
}

fn hex_char_exec(n: u32) -> (r: char)
    requires
        n < 16,
    ensures
        r == hex_char(n as int),
{
    match n {
        0 => '0',
        1 => '1',
        2 => '2',
        3 => '3',
        4 => '4',
        5 => '5',
        6 => '6',
        7 => '7',
        8 => '8',
        9 => '9',
        10 => 'a',
        11 => 'b',
        12 => 'c',
        13 => 'd',
        14 => 'e',
        _ => 'f',
    }
}

/// A character below the space character is a control character.
proof fn lemma_control_char(c: char)
    requires
        ' ' > c,
    ensures
        0 <= (c as int) < 32,
{
}

/// The escape of one string character in wire text.
pub open spec fn spec_escape_char(c: char) -> Seq<char> {
    if c == '"' {
        seq!['\\', '"']
    } else if c == '\\' {
        seq!['\\', '\\']
    } else if c == '\n' {
        seq!['\\', 'n']
    } else if c == '\r' {
        seq!['\\', 'r']
    } else if c == '\t' {
        seq!['\\', 't']
    } else if (c as int) < 32 {
        seq!['\\', 'u', '0', '0', hex_char(c as int / 16), hex_char(c as int % 16)]
    } else {
        seq![c]
    }
}

/// The escaped body of a string, from position `i` on.
pub open spec fn spec_escape_from(s: Seq<char>, i: int) -> Seq<char>
    decreases s.len() - i,
{
    if !(0 <= i < s.len()) {
        Seq::empty()
    } else {
        spec_escape_char(s[i]) + spec_escape_from(s, i + 1)
    }
}

/// The wire text of a string: quoted and escaped.
pub open spec fn spec_string_text(s: Seq<char>) -> Seq<char> {
    seq!['"'] + spec_escape_from(s, 0) + seq!['"']
}

fn write_escaped_from(s: &Vec<char>, i: usize, out: &mut Vec<char>)
    requires
        i <= s@.len(),
    ensures
        final(out)@ == old(out)@ + spec_escape_from(s@, i as int),
    decreases s@.len() - i,
{
    if i >= s.len() {
        proof {
            assert(out@ =~= old(out)@ + spec_escape_from(s@, i as int));
        }
        return ;
    }
    let c = s[i];
    if c == '"' {
        out.push('\\');
        out.push('"');
        proof {
            assert(out@ =~= old(out)@ + spec_escape_char(s@[i as int]));
        }
    } else if c == '\\' {
        out.push('\\');
        out.push('\\');
        proof {
            assert(out@ =~= old(out)@ + spec_escape_char(s@[i as int]));
        }
    } else if c == '\n' {
        out.push('\\');
        out.push('n');
        proof {
            assert(out@ =~= old(out)@ + spec_escape_char(s@[i as int]));
        }
    } else if c == '\r' {
        out.push('\\');
        out.push('r');
        proof {
            assert(out@ =~= old(out)@ + spec_escape_char(s@[i as int]));
        }
    } else if c == '\t' {
        out.push('\\');
        out.push('t');
        proof {
            assert(out@ =~= old(out)@ + spec_escape_char(s@[i as int]));
        }
    } else if ' ' > c {
        proof {
            lemma_control_char(c);
        }
        let (hi, lo): (char, char) = match c {
            '\u{0}' => ('0', '0'),
            '\u{1}' => ('0', '1'),
            '\u{2}' => ('0', '2'),
            '\u{3}' => ('0', '3'),
            '\u{4}' => ('0', '4'),
            '\u{5}' => ('0', '5'),
            '\u{6}' => ('0', '6'),
            '\u{7}' => ('0', '7'),
            '\u{8}' => ('0', '8'),
            '\u{9}' => ('0', '9'),
            '\u{a}' => ('0', 'a'),
            '\u{b}' => ('0', 'b'),
            '\u{c}' => ('0', 'c'),
            '\u{d}' => ('0', 'd'),
            '\u{e}' => ('0', 'e'),
            '\u{f}' => ('0', 'f'),
            '\u{10}' => ('1', '0'),
            '\u{11}' => ('1', '1'),
            '\u{12}' => ('1', '2'),
            '\u{13}' => ('1', '3'),
            '\u{14}' => ('1', '4'),
            '\u{15}' => ('1', '5'),
            '\u{16}' => ('1', '6'),
            '\u{17}' => ('1', '7'),
            '\u{18}' => ('1', '8'),
            '\u{19}' => ('1', '9'),
            '\u{1a}' => ('1', 'a'),
            '\u{1b}' => ('1', 'b'),
            '\u{1c}' => ('1', 'c'),
            '\u{1d}' => ('1', 'd'),
            '\u{1e}' => ('1', 'e'),
            '\u{1f}' => ('1', 'f'),
            _ => ('0', '0'),
        };
        proof {
            assert(hi == hex_char(c as int / 16) && lo == hex_char(c as int % 16)) by {
                lemma_control_char(c);
                if c == '\u{0}' { }
                if c == '\u{1}' { }
                if c == '\u{2}' { }
                if c == '\u{3}' { }
                if c == '\u{4}' { }
                if c == '\u{5}' { }
                if c == '\u{6}' { }
                if c == '\u{7}' { }
                if c == '\u{8}' { }
                if c == '\u{9}' { }
                if c == '\u{a}' { }
                if c == '\u{b}' { }
                if c == '\u{c}' { }
                if c == '\u{d}' { }
                if c == '\u{e}' { }
                if c == '\u{f}' { }
                if c == '\u{10}' { }
                if c == '\u{11}' { }
                if c == '\u{12}' { }
                if c == '\u{13}' { }
                if c == '\u{14}' { }
                if c == '\u{15}' { }
                if c == '\u{16}' { }
                if c == '\u{17}' { }
                if c == '\u{18}' { }
                if c == '\u{19}' { }
                if c == '\u{1a}' { }
                if c == '\u{1b}' { }
                if c == '\u{1c}' { }
                if c == '\u{1d}' { }
                if c == '\u{1e}' { }
                if c == '\u{1f}' { }
            }
        }
        out.push('\\');
        out.push('u');
        out.push('0');
        out.push('0');
        out.push(hi);
        out.push(lo);
        proof {
            assert(out@ =~= old(out)@ + spec_escape_char(s@[i as int]));
        }
    } else {
        out.push(c);
        proof {
            assert(out@ =~= old(out)@ + spec_escape_char(s@[i as int]));
        }
    }
    write_escaped_from(s, i + 1, out);
    proof {
        assert(out@ =~= old(out)@ + spec_escape_from(s@, i as int));
    }
}

fn write_string(s: &String, out: &mut Vec<char>)
    ensures
        final(out)@ == old(out)@ + spec_string_text(s@),
{
    let chars = crate::text_api::common::str_to_chars(s.as_str());
    out.push('"');
    write_escaped_from(&chars, 0, out);
    out.push('"');
    proof {
        assert(out@ =~= old(out)@ + spec_string_text(s@));
    }
}

/// The wire text of a JSON value.
pub open spec fn spec_json_text(j: JsonView) -> Seq<char>
    decreases j, 0int, 0int,
{
    match j {
        JsonView::Null => "null"@,
        JsonView::Bool(b) => if b {
            "true"@
        } else {
            "false"@
        },
        JsonView::Int(v) => spec_i64_text(v as int),
        JsonView::Num(t) => t,
        JsonView::Str(t) => spec_string_text(t),
        JsonView::Arr(items) => seq!['['] + spec_arr_text_from(items, 0) + seq![']'],
        JsonView::Obj(fields) => seq!['{'] + spec_obj_text_from(fields, 0) + seq!['}'],
    }
}

/// The comma-joined wire text of the array elements from `i` on.
pub open spec fn spec_arr_text_from(items: Seq<JsonView>, i: int) -> Seq<char>
    decreases items, items.len() - i, 1int,
{
    if !(0 <= i < items.len()) {
        Seq::empty()
    } else {
        let sep: Seq<char> = if i > 0 {
            seq![',']
        } else {
            Seq::empty()
        };
        sep + spec_json_text(items[i]) + spec_arr_text_from(items, i + 1)
    }
}

/// The comma-joined wire text of the object fields from `i` on.
pub open spec fn spec_obj_text_from(fields: Seq<(Seq<char>, JsonView)>, i: int) -> Seq<char>
    decreases fields, fields.len() - i, 1int,
{
    if !(0 <= i < fields.len()) {
        Seq::empty()
    } else {
        let sep: Seq<char> = if i > 0 {
            seq![',']
        } else {
            Seq::empty()
        };
        sep + spec_string_text(fields[i].0) + seq![':'] + spec_json_text(fields[i].1)
            + spec_obj_text_from(fields, i + 1)
    }
}

fn write_value(v: &JsonValue, out: &mut Vec<char>)
    ensures
        final(out)@ == old(out)@ + spec_json_text(v@),
    decreases *v, 0int, 0int,
{
    match v {
        JsonValue::Null => {
            proof {
                reveal_strlit("null");
            }
            out.push('n');
            out.push('u');
            out.push('l');
            out.push('l');
            proof {
                assert(out@ =~= old(out)@ + "null"@);
            }
        },
        JsonValue::Bool(b) => {
            proof {
                reveal_strlit("true");
                reveal_strlit("false");
            }
            if *b {
                out.push('t');
                out.push('r');
                out.push('u');
                out.push('e');
                proof {
                    assert(out@ =~= old(out)@ + "true"@);
                }
            } else {
                out.push('f');
                out.push('a');
                out.push('l');
                out.push('s');
                out.push('e');
                proof {
                    assert(out@ =~= old(out)@ + "false"@);
                }
            }
        },
        JsonValue::Int(i) => {
            write_i64(*i, out);
        },
        JsonValue::Num(t) => {
            let chars = crate::text_api::common::str_to_chars(t.as_str());
            let mut k: usize = 0;
            let ghost base = out@;
            while k < chars.len()
                invariant
                    0 <= k <= chars@.len(),
                    out@ == base + chars@.subrange(0, k as int),
                decreases chars@.len() - k,
            {
                out.push(chars[k]);
                proof {
                    assert(out@ =~= base + chars@.subrange(0, k + 1 as int));
                }
                k = k + 1;
            }
            proof {
                assert(chars@.subrange(0, chars@.len() as int) =~= chars@);
                assert(out@ =~= old(out)@ + spec_json_text(v@));
            }
        },
        JsonValue::Str(t) => {
            write_string(t, out);
        },
        JsonValue::Arr(items) => {
            proof {
                assert(decreases_to!(*v => v->Arr_0));
            }
            out.push('[');
            write_arr_from(items, 0, out);
            out.push(']');
            proof {
                lemma_json_views_len(items@);
                assert(out@ =~= old(out)@ + spec_json_text(v@));
            }
        },
        JsonValue::Obj(fields) => {
            proof {
                assert(decreases_to!(*v => v->Obj_0));
            }
            out.push('{');
            write_obj_from(fields, 0, out);
            out.push('}');
            proof {
                lemma_json_field_views_len(fields@);
                assert(out@ =~= old(out)@ + spec_json_text(v@));
            }
        },
    }
}

fn write_arr_from(items: &Vec<JsonValue>, i: usize, out: &mut Vec<char>)
    requires
        i <= items@.len(),
    ensures
        final(out)@ == old(out)@ + spec_arr_text_from(json_views(items@), i as int),
    decreases *items, items@.len() - i, 1int,
{
    proof {
        lemma_json_views_len(items@);
    }
    if i >= items.len() {
        proof {
            assert(out@ =~= old(out)@ + spec_arr_text_from(json_views(items@), i as int));
        }
        return ;
    }
    if i > 0 {
        out.push(',');
    }
    proof {
        assert(decreases_to!(*items => items[i as int]));
        lemma_json_views_index(items@, i as int);
    }
    write_value(&items[i], out);
    write_arr_from(items, i + 1, out);
    proof {
        assert(out@ =~= old(out)@ + spec_arr_text_from(json_views(items@), i as int));
    }
}

fn write_obj_from(fields: &Vec<(String, JsonValue)>, i: usize, out: &mut Vec<char>)
    requires
        i <= fields@.len(),
    ensures
        final(out)@ == old(out)@ + spec_obj_text_from(json_field_views(fields@), i as int),
    decreases *fields, fields@.len() - i, 1int,
{
    proof {
        lemma_json_field_views_len(fields@);
    }
    if i >= fields.len() {
        proof {
            assert(out@ =~= old(out)@ + spec_obj_text_from(json_field_views(fields@), i as int));
        }
        return ;
    }
    if i > 0 {
        out.push(',');
    }
    proof {
        assert(decreases_to!(*fields => fields[i as int]));
        assert(decreases_to!(fields[i as int] => fields[i as int].1));
        lemma_json_field_views_index(fields@, i as int);
    }
    write_string(&fields[i].0, out);
    out.push(':');
    write_value(&fields[i].1, out);
    write_obj_from(fields, i + 1, out);
    proof {
        assert(out@ =~= old(out)@ + spec_obj_text_from(json_field_views(fields@), i as int));
    }
}

/// The decimal text of a signed value, as characters.
pub fn i64_chars(v: i64) -> (r: Vec<char>)
    ensures
        r@ == spec_i64_text(v as int),
{
    let mut out: Vec<char> = Vec::new();
    write_i64(v, &mut out);
    proof {
        assert(out@ =~= spec_i64_text(v as int));
    }
    out
}

/// The wire text of a JSON value, as a string.
pub fn write_json(v: &JsonValue) -> (r: String)
    ensures
        r@ == spec_json_text(v@),
{
    let mut out: Vec<char> = Vec::new();
    write_value(v, &mut out);
    chars_to_string(&out)
}

// ---------------------------------------------------------------------------
// The parser
// ---------------------------------------------------------------------------
#[verifier::external_type_specification]
#[verifier::external_body]
pub struct ExSerdeValue(serde_json::Value);

/// What parsing a JSON text yields: `None` on malformed text, else the parsed
/// document. The result is a function of the text alone.
pub uninterp spec fn json_parsed(s: Seq<char>) -> Option<JsonView>;

/// Relies on serde_json::Value: a parsed document converts variant by variant
/// into the library's JSON model; a number becomes its decimal text.
#[verifier::external_body]
fn from_serde(v: serde_json::Value) -> JsonValue {
    match v {
        serde_json::Value::Null => JsonValue::Null,
        serde_json::Value::Bool(b) => JsonValue::Bool(b),
        serde_json::Value::Number(n) => JsonValue::Num(n.to_string()),
        serde_json::Value::String(t) => JsonValue::Str(t),
        serde_json::Value::Array(a) => JsonValue::Arr(a.into_iter().map(from_serde).collect()),
        serde_json::Value::Object(m) => JsonValue::Obj(
            m.into_iter().map(|(k, x)| (k, from_serde(x))).collect(),
        ),
    }
}

/// Relies on serde_json::from_str::<Value>: parses one JSON document, or
/// fails on malformed text; what comes back is a function of the text alone.
#[verifier::external_body]
pub fn parse_json(s: &str) -> (r: Option<JsonValue>)
    ensures
        r matches Some(v) ==> json_parsed(s@) == Some(v@),
        r is None ==> json_parsed(s@) is None,
{
    match serde_json::from_str::<serde_json::Value>(s) {
        Ok(v) => Some(from_serde(v)),
        Err(_) => None,
    }
}

/// The first field with the given key, if any.
pub open spec fn spec_obj_get(fields: Seq<(Seq<char>, JsonView)>, key: Seq<char>) -> Option<
    JsonView,
>
    decreases fields.len(),
{
    if fields.len() == 0 {
        None
    } else if fields[0].0 == key {
        Some(fields[0].1)
    } else {
        spec_obj_get(fields.drop_first(), key)
    }
}

/// Field lookup on an object's field list, executable form.
pub fn obj_get<'a>(fields: &'a Vec<(String, JsonValue)>, key: &str) -> (r: Option<&'a JsonValue>)
    ensures
        match r {
            Some(v) => spec_obj_get(json_field_views(fields@), key@) == Some(v@),
            None => spec_obj_get(json_field_views(fields@), key@) is None,
        },
{
    let target = crate::text_api::common::str_to_chars(key);
    let n = fields.len();
    proof {
        lemma_json_field_views_len(fields@);
        assert(json_field_views(fields@).skip(0) =~= json_field_views(fields@));
    }
    let mut i: usize = 0;
    while i < n
        invariant
            0 <= i <= n == fields@.len(),
            target@ == key@,
            json_field_views(fields@).len() == n,
            spec_obj_get(json_field_views(fields@), key@) == spec_obj_get(
                json_field_views(fields@).skip(i as int),
                key@,
            ),
        decreases n - i,
    {
        proof {
            lemma_json_field_views_index(fields@, i as int);
            assert(json_field_views(fields@).skip(i as int)[0] == json_field_views(fields@)[
                i as int]);
        }
        let name_chars = crate::text_api::common::str_to_chars(fields[i].0.as_str());
        if crate::text_api::common::eq_chars(&name_chars, &target) {
            return Some(&fields[i].1);
        }
        proof {
            assert(json_field_views(fields@)[i as int].0 != key@);
            assert(json_field_views(fields@).skip(i as int).drop_first() =~= json_field_views(
                fields@,
            ).skip(i + 1 as int));
        }
        i = i + 1;
    }
    proof {
        assert(json_field_views(fields@).skip(n as int) =~= Seq::<(Seq<char>, JsonView)>::empty());
    }
    None
}

} // verus!
