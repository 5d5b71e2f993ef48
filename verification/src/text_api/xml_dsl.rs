//! The prompt compiler: parses rendered markup text into a collection of
//! named prompt definitions.
//!
//! The document grammar: a prompt is written `<prompt attr="value" ...> ...
//! </prompt>` (or self-closed `<prompt ... />`). Inside a prompt body, each
//! message is written `<message role="...">text</message>`. Scanning is
//! lenient: anything that is not a well-formed prompt element is skipped, and
//! a malformed attribute value degrades to an unset field, never to a failure
//! of the whole document.

use vstd::prelude::*;

use crate::text_api::common::{
    chars_to_string, eq_chars, spec_find_char, spec_parse_bool, spec_parse_int, is_number_lit,
    str_to_chars,
};
use crate::text_api::dedent::{is_space, lemma_spaces_end, spaces_end, spec_clean_body};
use crate::text_api::request::{
    Message, MessageView, Number, RequestBuilder, RequestBuilderView, ResponseFormat, Role,
};

verus! {

// ---------------------------------------------------------------------------
// Substring search
// ---------------------------------------------------------------------------
/// `pat` occurs in `s` at position `i`.
pub open spec fn match_at(s: Seq<char>, pat: Seq<char>, i: int) -> bool {
    0 <= i && i + pat.len() <= s.len() && s.subrange(i, i + pat.len()) == pat
}

/// The first occurrence of `pat` at or after `i`.
pub open spec fn spec_find_at(s: Seq<char>, pat: Seq<char>, i: int) -> Option<int>
    decreases s.len() - i,
{
    if i < 0 || pat.len() == 0 || i + pat.len() > s.len() {
        None
    } else if match_at(s, pat, i) {
        Some(i)
    } else {
        spec_find_at(s, pat, i + 1)
    }
}

pub proof fn lemma_find_at(s: Seq<char>, pat: Seq<char>, i: int)
    requires
        0 <= i,
        pat.len() > 0,
    ensures
        match spec_find_at(s, pat, i) {
            Some(j) => i <= j && match_at(s, pat, j) && (forall|k: int|
                i <= k < j ==> !match_at(s, pat, k)),
            None => forall|k: int| i <= k ==> !match_at(s, pat, k),
        },
    decreases s.len() - i,
{
    if i + pat.len() > s.len() {
        assert forall|k: int| i <= k implies !match_at(s, pat, k) by {}
    } else if !match_at(s, pat, i) {
        lemma_find_at(s, pat, i + 1);
    }
}

/// Whether `pat` occurs at position `i`, executable form.
fn match_at_exec(s: &Vec<char>, pat: &Vec<char>, i: usize) -> (r: bool)
    ensures
        r == match_at(s@, pat@, i as int),
{
    let m = pat.len();
    if i > s.len() || m > s.len() - i {
        return false;
    }
    let mut k: usize = 0;
    while k < m
        invariant
            0 <= k <= m == pat@.len(),
            i + m <= s@.len(),
            s@.len() <= usize::MAX,
            forall|q: int| 0 <= q < k ==> s@[i + q] == pat@[q],
        decreases m - k,
    {
        if s[i + k] != pat[k] {
            proof {
                assert(s@.subrange(i as int, i + m as int)[k as int] != pat@[k as int]);
            }
            return false;
        }
        k = k + 1;
    }
    proof {
        assert(s@.subrange(i as int, i + m as int) =~= pat@);
    }
    true
}

/// The first occurrence of `pat` at or after `i`, executable form.
fn find_at(s: &Vec<char>, pat: &Vec<char>, i: usize) -> (r: Option<usize>)
    requires
        i <= s@.len(),
    ensures
        match r {
            Some(j) => Some(j as int) == spec_find_at(s@, pat@, i as int),
            None => spec_find_at(s@, pat@, i as int) is None,
        },
    decreases s@.len() - i,
{
    let n = s.len();
    if pat.len() > n - i {
        return None;
    }
    if pat.len() == 0 {
        return None;
    }
    if match_at_exec(s, pat, i) {
        Some(i)
    } else {
        assert(i < n);
        find_at(s, pat, i + 1)
    }
}

// ---------------------------------------------------------------------------
// Attributes
// ---------------------------------------------------------------------------
/// A character that may stand in an attribute or element name.
pub open spec fn is_name_char(c: char) -> bool {
    ('a' <= c && c <= 'z') || ('A' <= c && c <= 'Z') || ('0' <= c && c <= '9') || c == '-' || c
        == '_'
}

fn is_name_char_exec(c: char) -> (r: bool)
    ensures
        r == is_name_char(c),
{
    ('a' <= c && c <= 'z') || ('A' <= c && c <= 'Z') || ('0' <= c && c <= '9') || c == '-' || c
        == '_'
}

/// The first position at or after `i` holding a non-name character.
pub open spec fn name_end(s: Seq<char>, i: int) -> int
    decreases s.len() - i,
{
    if 0 <= i < s.len() && is_name_char(s[i]) {
        name_end(s, i + 1)
    } else {
        i
    }
}

pub proof fn lemma_name_end(s: Seq<char>, i: int)
    requires
        0 <= i <= s.len(),
    ensures
        i <= name_end(s, i) <= s.len(),
        forall|k: int| i <= k < name_end(s, i) ==> is_name_char(s[k]),
        name_end(s, i) < s.len() ==> !is_name_char(s[name_end(s, i)]),
        i < s.len() && is_name_char(s[i]) ==> name_end(s, i) > i,
    decreases s.len() - i,
{
    if i < s.len() && is_name_char(s[i]) {
        lemma_name_end(s, i + 1);
    }
}

fn name_end_exec(s: &Vec<char>, i: usize) -> (r: usize)
    requires
        i <= s@.len(),
    ensures
        r == name_end(s@, i as int),
        i <= r <= s@.len(),
    decreases s@.len() - i,
{
    if i < s.len() && is_name_char_exec(s[i]) {
        name_end_exec(s, i + 1)
    } else {
        i
    }
}

/// The first position at or after `i` that ends an unquoted attribute
/// value: whitespace or the tag's closing `>`.
pub open spec fn unquoted_end(s: Seq<char>, i: int) -> int
    decreases s.len() - i,
{
    if 0 <= i < s.len() && !is_space(s[i]) && s[i] != '>' {
        unquoted_end(s, i + 1)
    } else {
        i
    }
}

pub proof fn lemma_unquoted_end(s: Seq<char>, i: int)
    requires
        0 <= i <= s.len(),
    ensures
        i <= unquoted_end(s, i) <= s.len(),
    decreases s.len() - i,
{
    if i < s.len() && !is_space(s[i]) && s[i] != '>' {
        lemma_unquoted_end(s, i + 1);
    }
}

fn unquoted_end_exec(s: &Vec<char>, i: usize) -> (r: usize)
    requires
        i <= s@.len(),
    ensures
        r == unquoted_end(s@, i as int),
        i <= r <= s@.len(),
    decreases s@.len() - i,
{
    if i < s.len() {
        let c = s[i];
        if !(c == ' ' || c == '\t' || c == '\r' || c == '\n') && c != '>' {
            return unquoted_end_exec(s, i + 1);
        }
    }
    i
}

fn spaces_end_exec(s: &Vec<char>, i: usize) -> (r: usize)
    requires
        i <= s@.len(),
    ensures
        r == spaces_end(s@, i as int),
        i <= r <= s@.len(),
    decreases s@.len() - i,
{
    if i < s.len() {
        let c = s[i];
        if c == ' ' || c == '\t' || c == '\r' || c == '\n' {
            return spaces_end_exec(s, i + 1);
        }
    }
    i
}

/// Parsed attributes of an open tag: the name/value pairs, the position just
/// past the closing `>`, and whether the tag was self-closing. A value may be
/// double-quoted, single-quoted, or unquoted (running to the next whitespace
/// or `>`); a name without `=` carries the empty value; spaces are allowed
/// around `=`.
pub open spec fn spec_parse_attrs(s: Seq<char>, i: int) -> Option<
    (Seq<(Seq<char>, Seq<char>)>, int, bool),
>
    decreases s.len() - i,
    via spec_parse_attrs_dec
{
    if !(0 <= i < s.len()) {
        None
    } else if is_space(s[i]) {
        spec_parse_attrs(s, i + 1)
    } else if s[i] == '>' {
        Some((Seq::empty(), i + 1, false))
    } else if s[i] == '/' {
        if i + 1 < s.len() && s[i + 1] == '>' {
            Some((Seq::empty(), i + 2, true))
        } else {
            None
        }
    } else if is_name_char(s[i]) {
        let j = name_end(s, i);
        let name = s.subrange(i, j);
        let k = spaces_end(s, j);
        if k < s.len() && s[k] == '=' {
            let m = spaces_end(s, k + 1);
            if m < s.len() && (s[m] == '"' || s[m] == '\'') {
                match spec_find_char(s, s[m], m + 1) {
                    None => None,
                    Some(q) => match spec_parse_attrs(s, q + 1) {
                        None => None,
                        Some((rest, e, sc)) => Some(
                            (seq![(name, s.subrange(m + 1, q))] + rest, e, sc),
                        ),
                    },
                }
            } else {
                let v = unquoted_end(s, m);
                match spec_parse_attrs(s, v) {
                    None => None,
                    Some((rest, e, sc)) => Some((seq![(name, s.subrange(m, v))] + rest, e, sc)),
                }
            }
        } else {
            match spec_parse_attrs(s, j) {
                None => None,
                Some((rest, e, sc)) => Some((seq![(name, Seq::empty())] + rest, e, sc)),
            }
        }
    } else {
        None
    }
}

#[via_fn]
proof fn spec_parse_attrs_dec(s: Seq<char>, i: int) {
    if 0 <= i < s.len() && !is_space(s[i]) && s[i] != '>' && s[i] != '/' && is_name_char(s[i]) {
        lemma_name_end(s, i);
        let j = name_end(s, i);
        lemma_spaces_end(s, j);
        let k = spaces_end(s, j);
        if k < s.len() && s[k] == '=' {
            lemma_spaces_end(s, k + 1);
            let m = spaces_end(s, k + 1);
            if m < s.len() && (s[m] == '"' || s[m] == '\'') {
                crate::text_api::common::lemma_find_char(s, s[m], m + 1);
            } else {
                lemma_unquoted_end(s, m);
            }
        }
    }
}

/// The end position of a successful attribute parse lies past `i`, within the
/// text.
pub proof fn lemma_parse_attrs_end(s: Seq<char>, i: int)
    requires
        0 <= i,
    ensures
        spec_parse_attrs(s, i) matches Some(t) ==> i < t.1 <= s.len(),
    decreases s.len() - i,
{
    if 0 <= i < s.len() {
        if is_space(s[i]) {
            lemma_parse_attrs_end(s, i + 1);
        } else if s[i] == '>' || s[i] == '/' {
        } else if is_name_char(s[i]) {
            lemma_name_end(s, i);
            let j = name_end(s, i);
            lemma_spaces_end(s, j);
            let k = spaces_end(s, j);
            if k < s.len() && s[k] == '=' {
                lemma_spaces_end(s, k + 1);
                let m = spaces_end(s, k + 1);
                if m < s.len() && (s[m] == '"' || s[m] == '\'') {
                    crate::text_api::common::lemma_find_char(s, s[m], m + 1);
                    match spec_find_char(s, s[m], m + 1) {
                        None => {},
                        Some(q) => {
                            lemma_parse_attrs_end(s, q + 1);
                        },
                    }
                } else {
                    lemma_unquoted_end(s, m);
                    lemma_parse_attrs_end(s, unquoted_end(s, m));
                }
            } else {
                lemma_parse_attrs_end(s, j);
            }
        }
    }
}

/// The view of an executable attribute list.
pub open spec fn attrs_view(attrs: Seq<(Vec<char>, Vec<char>)>) -> Seq<(Seq<char>, Seq<char>)> {
    attrs.map_values(|p: (Vec<char>, Vec<char>)| (p.0@, p.1@))
}

/// A name/value pair put in front of an attribute list.
fn prepend_attr(
    name: Vec<char>,
    value: Vec<char>,
    rest: Vec<(Vec<char>, Vec<char>)>,
) -> (out: Vec<(Vec<char>, Vec<char>)>)
    ensures
        attrs_view(out@) == seq![(name@, value@)] + attrs_view(rest@),
{
    let ghost head = (name@, value@);
    let ghost rest_snap = rest@;
    let mut rest = rest;
    let mut out: Vec<(Vec<char>, Vec<char>)> = Vec::new();
    out.push((name, value));
    out.append(&mut rest);
    proof {
        assert forall|m: int| 0 <= m < out@.len() implies attrs_view(out@)[m] == (seq![head]
            + attrs_view(rest_snap))[m] by {
            if m > 0 {
                assert(out@[m] == rest_snap[m - 1]);
                assert(attrs_view(rest_snap)[m - 1] == (rest_snap[m - 1].0@, rest_snap[m - 1].1@));
            }
        }
        assert(attrs_view(out@) =~= seq![head] + attrs_view(rest_snap));
    }
    out
}

/// Attribute parsing, executable form.
fn parse_attrs(s: &Vec<char>, i: usize) -> (r: Option<(Vec<(Vec<char>, Vec<char>)>, usize, bool)>)
    requires
        i <= s@.len(),
    ensures
        match r {
            Some(t) => spec_parse_attrs(s@, i as int) matches Some(g) && attrs_view(t.0@) == g.0
                && t.1 as int == g.1 && t.2 == g.2 && i < t.1 <= s@.len(),
            None => spec_parse_attrs(s@, i as int) is None,
        },
    decreases s@.len() - i,
{
    if i >= s.len() {
        return None;
    }
    let c = s[i];
    if c == ' ' || c == '\t' || c == '\r' || c == '\n' {
        return parse_attrs(s, i + 1);
    }
    if c == '>' {
        let empty: Vec<(Vec<char>, Vec<char>)> = Vec::new();
        proof {
            assert(attrs_view(empty@) =~= Seq::<(Seq<char>, Seq<char>)>::empty());
        }
        return Some((empty, i + 1, false));
    }
    if c == '/' {
        if i + 1 < s.len() && s[i + 1] == '>' {
            let empty: Vec<(Vec<char>, Vec<char>)> = Vec::new();
            proof {
                assert(attrs_view(empty@) =~= Seq::<(Seq<char>, Seq<char>)>::empty());
            }
            return Some((empty, i + 2, true));
        }
        return None;
    }
    if !is_name_char_exec(c) {
        return None;
    }
    proof {
        lemma_name_end(s@, i as int);
    }
    let n = s.len();
    let j = name_end_exec(s, i);
    proof {
        lemma_spaces_end(s@, j as int);
    }
    let k = spaces_end_exec(s, j);
    if k < n && s[k] == '=' {
        proof {
            lemma_spaces_end(s@, k + 1 as int);
        }
        let m = spaces_end_exec(s, k + 1);
        if m < n && (s[m] == '"' || s[m] == '\'') {
            let quote = s[m];
            proof {
                crate::text_api::common::lemma_find_char(s@, s@[m as int], m + 1 as int);
            }
            match crate::text_api::common::find_char(s, quote, m + 1) {
                None => None,
                Some(q) => {
                    assert(q < s@.len());
                    match parse_attrs(s, q + 1) {
                        None => None,
                        Some((rest, e, sc)) => {
                            let ghost rest_snap = rest@;
                            let name = crate::text_api::common::copy_range(s, i, j);
                            let value = crate::text_api::common::copy_range(s, m + 1, q);
                            let out = prepend_attr(name, value, rest);
                            proof {
                                let g = spec_parse_attrs(s@, i as int)->Some_0;
                                assert(attrs_view(out@) =~= g.0);
                            }
                            Some((out, e, sc))
                        },
                    }
                },
            }
        } else {
            let v = unquoted_end_exec(s, m);
            assert(v > i);
            match parse_attrs(s, v) {
                None => None,
                Some((rest, e, sc)) => {
                    let name = crate::text_api::common::copy_range(s, i, j);
                    let value = crate::text_api::common::copy_range(s, m, v);
                    let out = prepend_attr(name, value, rest);
                    proof {
                        let g = spec_parse_attrs(s@, i as int)->Some_0;
                        assert(attrs_view(out@) =~= g.0);
                    }
                    Some((out, e, sc))
                },
            }
        }
    } else {
        assert(j > i);
        match parse_attrs(s, j) {
            None => None,
            Some((rest, e, sc)) => {
                let name = crate::text_api::common::copy_range(s, i, j);
                let value: Vec<char> = Vec::new();
                let out = prepend_attr(name, value, rest);
                proof {
                    let g = spec_parse_attrs(s@, i as int)->Some_0;
                    assert(value@ =~= Seq::<char>::empty());
                    assert(attrs_view(out@) =~= g.0);
                }
                Some((out, e, sc))
            },
        }
    }
}

/// The value of the first attribute with the given name, if any.
pub open spec fn attr_lookup(attrs: Seq<(Seq<char>, Seq<char>)>, name: Seq<char>) -> Option<
    Seq<char>,
>
    decreases attrs.len(),
{
    if attrs.len() == 0 {
        None
    } else if attrs[0].0 == name {
        Some(attrs[0].1)
    } else {
        attr_lookup(attrs.drop_first(), name)
    }
}

/// Attribute lookup, executable form.
fn attr_lookup_exec<'a>(attrs: &'a Vec<(Vec<char>, Vec<char>)>, name: &Vec<char>) -> (r: Option<
    &'a Vec<char>,
>)
    ensures
        match r {
            Some(v) => attr_lookup(attrs_view(attrs@), name@) == Some(v@),
            None => attr_lookup(attrs_view(attrs@), name@) is None,
        },
{
    let n = attrs.len();
    proof {
        assert(attrs_view(attrs@).skip(0) =~= attrs_view(attrs@));
    }
    let mut i: usize = 0;
    while i < n
        invariant
            0 <= i <= n == attrs@.len(),
            attr_lookup(attrs_view(attrs@), name@) == attr_lookup(
                attrs_view(attrs@).skip(i as int),
                name@,
            ),
        decreases n - i,
    {
        proof {
            assert(attrs_view(attrs@).skip(i as int)[0] == (attrs@[i as int].0@, attrs@[
                i as int].1@));
        }
        if eq_chars(&attrs[i].0, name) {
            return Some(&attrs[i].1);
        }
        proof {
            assert(attrs_view(attrs@).skip(i as int).drop_first() =~= attrs_view(attrs@).skip(
                i + 1 as int,
            ));
        }
        i = i + 1;
    }
    proof {
        assert(attrs_view(attrs@).skip(n as int) =~= Seq::<(Seq<char>, Seq<char>)>::empty());
    }
    None
}

// ---------------------------------------------------------------------------
// Attribute coercion
// ---------------------------------------------------------------------------
/// ASCII lowercasing of one character.
pub open spec fn lower_char(c: char) -> char {
    match c {
        'A' => 'a',
        'B' => 'b',
        'C' => 'c',
        'D' => 'd',
        'E' => 'e',
        'F' => 'f',
        'G' => 'g',
        'H' => 'h',
        'I' => 'i',
        'J' => 'j',
        'K' => 'k',
        'L' => 'l',
        'M' => 'm',
        'N' => 'n',
        'O' => 'o',
        'P' => 'p',
        'Q' => 'q',
        'R' => 'r',
        'S' => 's',
        'T' => 't',
        'U' => 'u',
        'V' => 'v',
        'W' => 'w',
        'X' => 'x',
        'Y' => 'y',
        'Z' => 'z',
        _ => c,
    }
}

/// ASCII lowercasing of a text.
pub open spec fn spec_lower(s: Seq<char>) -> Seq<char> {
    s.map_values(|c: char| lower_char(c))
}

fn lower_char_exec(c: char) -> (r: char)
    ensures
        r == lower_char(c),
{
    match c {
        'A' => 'a',
        'B' => 'b',
        'C' => 'c',
        'D' => 'd',
        'E' => 'e',
        'F' => 'f',
        'G' => 'g',
        'H' => 'h',
        'I' => 'i',
        'J' => 'j',
        'K' => 'k',
        'L' => 'l',
        'M' => 'm',
        'N' => 'n',
        'O' => 'o',
        'P' => 'p',
        'Q' => 'q',
        'R' => 'r',
        'S' => 's',
        'T' => 't',
        'U' => 'u',
        'V' => 'v',
        'W' => 'w',
        'X' => 'x',
        'Y' => 'y',
        'Z' => 'z',
        _ => c,
    }
}

fn lower_chars(v: &Vec<char>) -> (r: Vec<char>)
    ensures
        r@ == spec_lower(v@),
{
    let mut out: Vec<char> = Vec::new();
    let mut i: usize = 0;
    let n = v.len();
    while i < n
        invariant
            0 <= i <= n == v@.len(),
            out@ == v@.subrange(0, i as int).map_values(|c: char| lower_char(c)),
        decreases n - i,
    {
        out.push(lower_char_exec(v[i]));
        proof {
            assert(out@ =~= v@.subrange(0, i + 1 as int).map_values(|c: char| lower_char(c)));
        }
        i = i + 1;
    }
    proof {
        assert(v@.subrange(0, n as int) =~= v@);
    }
    out
}

/// Strict boolean coercion of an optional attribute value.
pub open spec fn opt_bool(o: Option<Seq<char>>) -> Option<bool> {
    match o {
        None => None,
        Some(v) => spec_parse_bool(v),
    }
}

/// Strict integer coercion of an optional attribute value.
pub open spec fn opt_int(o: Option<Seq<char>>) -> Option<i64> {
    match o {
        None => None,
        Some(v) => spec_parse_int(v),
    }
}

/// Number coercion of an optional attribute value: any finite decimal
/// spelling is accepted and normalized to the wire grammar; a malformed
/// value degrades to absent.
pub open spec fn opt_number(o: Option<Seq<char>>) -> Option<Seq<char>> {
    match o {
        None => None,
        Some(v) => match crate::text_api::common::spec_coerce_number(v) {
            None => None,
            Some(t) => if is_number_lit(t) {
                Some(t)
            } else {
                None
            },
        },
    }
}

/// The enumerated response formats, matched case-insensitively; anything else
/// degrades to absent.
pub open spec fn spec_format_of(v: Seq<char>) -> Option<ResponseFormat> {
    let l = spec_lower(v);
    if l == "json-object"@ || l == "json_object"@ {
        Some(ResponseFormat::JsonObject)
    } else if l == "text"@ {
        Some(ResponseFormat::Text)
    } else {
        None
    }
}

pub open spec fn opt_format(o: Option<Seq<char>>) -> Option<ResponseFormat> {
    match o {
        None => None,
        Some(v) => spec_format_of(v),
    }
}

/// The role named by an optional attribute value; unrecognized spellings and
/// absence both mean `User`.
pub open spec fn role_of(o: Option<Seq<char>>) -> Role {
    match o {
        None => Role::User,
        Some(v) => if v == "system"@ {
            Role::System
        } else if v == "assistant"@ {
            Role::Assistant
        } else {
            Role::User
        },
    }
}

/// The message carried by one message element: its role attribute and its
/// trimmed, de-indented inner text.
pub open spec fn message_of(attrs: Seq<(Seq<char>, Seq<char>)>, inner: Seq<char>) -> MessageView {
    MessageView { role: role_of(attr_lookup(attrs, "role"@)), content: spec_clean_body(inner) }
}

/// The draft assembled from one prompt element: each scalar attribute coerced
/// independently, and the messages scanned from the element's body.
pub open spec fn draft_of(attrs: Seq<(Seq<char>, Seq<char>)>, body: Seq<char>) -> RequestBuilderView {
    RequestBuilderView {
        model: attr_lookup(attrs, "model"@),
        stream: opt_bool(attr_lookup(attrs, "stream"@)),
        temperature: opt_number(attr_lookup(attrs, "temperature"@)),
        n: opt_int(attr_lookup(attrs, "n"@)),
        max_tokens: opt_int(attr_lookup(attrs, "max-tokens"@)),
        top_p: opt_number(attr_lookup(attrs, "top-p"@)),
        frequency_penalty: opt_number(attr_lookup(attrs, "frequency-penalty"@)),
        presence_penalty: opt_number(attr_lookup(attrs, "presence-penalty"@)),
        logprobs: opt_bool(attr_lookup(attrs, "logprobs"@)),
        top_logprobs: opt_int(attr_lookup(attrs, "top-logprobs"@)),
        response_format: opt_format(attr_lookup(attrs, "response-format"@)),
        messages: spec_scan_messages(body, 0),
    }
}

/// The prompt built from one prompt element.
pub open spec fn prompt_of(attrs: Seq<(Seq<char>, Seq<char>)>, body: Seq<char>) -> PromptView {
    PromptView { name: attr_lookup(attrs, "name"@), request: draft_of(attrs, body) }
}

// ---------------------------------------------------------------------------
// Element scanning
// ---------------------------------------------------------------------------
/// Every message element found scanning the text from `i`, left to right and
/// without overlap; anything malformed is skipped.
pub open spec fn spec_scan_messages(s: Seq<char>, i: int) -> Seq<MessageView>
    decreases s.len() - i,
    via spec_scan_messages_dec
{
    if i < 0 {
        Seq::empty()
    } else {
        match spec_find_at(s, "<message"@, i) {
            None => Seq::empty(),
            Some(p) => {
                if p + 8 < s.len() && is_name_char(s[p + 8]) {
                    spec_scan_messages(s, p + 1)
                } else {
                    match spec_parse_attrs(s, p + 8) {
                        None => spec_scan_messages(s, p + 1),
                        Some((attrs, body, sc)) => {
                            if sc {
                                seq![message_of(attrs, Seq::empty())] + spec_scan_messages(s, body)
                            } else {
                                match spec_find_at(s, "</message>"@, body) {
                                    None => spec_scan_messages(s, p + 1),
                                    Some(c) => seq![message_of(attrs, s.subrange(body, c))]
                                        + spec_scan_messages(s, c + 10),
                                }
                            }
                        },
                    }
                }
            },
        }
    }
}

#[via_fn]
proof fn spec_scan_messages_dec(s: Seq<char>, i: int) {
    reveal_strlit("<message");
    reveal_strlit("</message>");
    if i >= 0 {
        lemma_find_at(s, "<message"@, i);
        match spec_find_at(s, "<message"@, i) {
            None => {},
            Some(p) => {
                lemma_parse_attrs_end(s, p + 8);
                match spec_parse_attrs(s, p + 8) {
                    None => {},
                    Some((attrs, body, sc)) => {
                        if !sc {
                            lemma_find_at(s, "</message>"@, body);
                        }
                    },
                }
            },
        }
    }
}

/// Every prompt element found scanning the text from `i`, left to right and
/// without overlap; anything malformed is skipped.
pub open spec fn spec_scan_prompts(s: Seq<char>, i: int) -> Seq<PromptView>
    decreases s.len() - i,
    via spec_scan_prompts_dec
{
    if i < 0 {
        Seq::empty()
    } else {
        match spec_find_at(s, "<prompt"@, i) {
            None => Seq::empty(),
            Some(p) => {
                if p + 7 < s.len() && is_name_char(s[p + 7]) {
                    spec_scan_prompts(s, p + 1)
                } else {
                    match spec_parse_attrs(s, p + 7) {
                        None => spec_scan_prompts(s, p + 1),
                        Some((attrs, body, sc)) => {
                            if sc {
                                seq![prompt_of(attrs, Seq::empty())] + spec_scan_prompts(s, body)
                            } else {
                                match spec_find_at(s, "</prompt>"@, body) {
                                    None => spec_scan_prompts(s, p + 1),
                                    Some(c) => seq![prompt_of(attrs, s.subrange(body, c))]
                                        + spec_scan_prompts(s, c + 9),
                                }
                            }
                        },
                    }
                }
            },
        }
    }
}

#[via_fn]
proof fn spec_scan_prompts_dec(s: Seq<char>, i: int) {
    reveal_strlit("<prompt");
    reveal_strlit("</prompt>");
    if i >= 0 {
        lemma_find_at(s, "<prompt"@, i);
        match spec_find_at(s, "<prompt"@, i) {
            None => {},
            Some(p) => {
                lemma_parse_attrs_end(s, p + 7);
                match spec_parse_attrs(s, p + 7) {
                    None => {},
                    Some((attrs, body, sc)) => {
                        if !sc {
                            lemma_find_at(s, "</prompt>"@, body);
                        }
                    },
                }
            },
        }
    }
}

/// What compiling a rendered document yields: its prompt elements, in order.
pub open spec fn spec_compile(s: Seq<char>) -> Seq<PromptView> {
    spec_scan_prompts(s, 0)
}

// ---------------------------------------------------------------------------
// Public types
// ---------------------------------------------------------------------------
/// One named prompt definition: an optional name and the request draft its
/// attributes and messages describe.
#[derive(Debug)]
pub struct Prompt {
    pub name: Option<String>,
    pub request: RequestBuilder,
}

/// The mathematical value of a [`Prompt`].
pub struct PromptView {
    pub name: Option<Seq<char>>,
    pub request: RequestBuilderView,
}

impl View for Prompt {
    type V = PromptView;

    open spec fn view(&self) -> PromptView {
        PromptView {
            name: crate::text_api::request::view_of_opt_string(self.name),
            request: self.request@,
        }
    }
}

impl Clone for Prompt {
    fn clone(&self) -> (r: Self)
        ensures
            r@ == self@,
    {
        Prompt {
            name: crate::text_api::request::clone_opt_string(&self.name),
            request: self.request.clone(),
        }
    }
}

/// The ordered prompt definitions parsed from one document.
#[derive(Debug)]
pub struct PromptCollection {
    prompts: Vec<Prompt>,
}

impl View for PromptCollection {
    type V = Seq<PromptView>;

    closed spec fn view(&self) -> Seq<PromptView> {
        self.prompts@.map_values(|p: Prompt| p@)
    }
}

/// The first prompt carrying the given name, if any.
pub open spec fn spec_lookup(ps: Seq<PromptView>, name: Seq<char>) -> Option<PromptView>
    decreases ps.len(),
{
    if ps.len() == 0 {
        None
    } else if ps[0].name == Some(name) {
        Some(ps[0])
    } else {
        spec_lookup(ps.drop_first(), name)
    }
}

// ---------------------------------------------------------------------------
// Executable scanning
// ---------------------------------------------------------------------------
/// One message element's [`Message`], from its attributes and inner text.
fn message_from(attrs: &Vec<(Vec<char>, Vec<char>)>, inner: &Vec<char>) -> (r: Message)
    ensures
        r@ == message_of(attrs_view(attrs@), inner@),
{
    let role_key = str_to_chars("role");
    let role: Role = match attr_lookup_exec(attrs, &role_key) {
        None => Role::User,
        Some(v) => {
            let system_lit = str_to_chars("system");
            let assistant_lit = str_to_chars("assistant");
            if eq_chars(v, &system_lit) {
                Role::System
            } else if eq_chars(v, &assistant_lit) {
                Role::Assistant
            } else {
                Role::User
            }
        },
    };
    let trimmed = crate::text_api::dedent::trim_chars(inner);
    let cleaned = crate::text_api::dedent::unindent_chars(&trimmed);
    Message { role, content: chars_to_string(&cleaned) }
}

/// One prompt element's draft, from its attributes and body.
fn draft_from(attrs: &Vec<(Vec<char>, Vec<char>)>, body: &Vec<char>) -> (r: RequestBuilder)
    ensures
        r@ == draft_of(attrs_view(attrs@), body@),
{
    let model_key = str_to_chars("model");
    let model: Option<String> = match attr_lookup_exec(attrs, &model_key) {
        None => None,
        Some(v) => Some(chars_to_string(v)),
    };
    let stream_key = str_to_chars("stream");
    let stream: Option<bool> = match attr_lookup_exec(attrs, &stream_key) {
        None => None,
        Some(v) => parse_bool_chars(v),
    };
    let temperature_key = str_to_chars("temperature");
    let temperature: Option<Number> = match attr_lookup_exec(attrs, &temperature_key) {
        None => None,
        Some(v) => match crate::text_api::common::coerce_number_chars(v) {
            None => None,
            Some(t) => Number::from_chars(&t),
        },
    };
    let n_key = str_to_chars("n");
    let n: Option<i64> = match attr_lookup_exec(attrs, &n_key) {
        None => None,
        Some(v) => crate::text_api::common::parse_int_chars(v),
    };
    let max_tokens_key = str_to_chars("max-tokens");
    let max_tokens: Option<i64> = match attr_lookup_exec(attrs, &max_tokens_key) {
        None => None,
        Some(v) => crate::text_api::common::parse_int_chars(v),
    };
    let top_p_key = str_to_chars("top-p");
    let top_p: Option<Number> = match attr_lookup_exec(attrs, &top_p_key) {
        None => None,
        Some(v) => match crate::text_api::common::coerce_number_chars(v) {
            None => None,
            Some(t) => Number::from_chars(&t),
        },
    };
    let frequency_penalty_key = str_to_chars("frequency-penalty");
    let frequency_penalty: Option<Number> = match attr_lookup_exec(attrs, &frequency_penalty_key) {
        None => None,
        Some(v) => match crate::text_api::common::coerce_number_chars(v) {
            None => None,
            Some(t) => Number::from_chars(&t),
        },
    };
    let presence_penalty_key = str_to_chars("presence-penalty");
    let presence_penalty: Option<Number> = match attr_lookup_exec(attrs, &presence_penalty_key) {
        None => None,
        Some(v) => match crate::text_api::common::coerce_number_chars(v) {
            None => None,
            Some(t) => Number::from_chars(&t),
        },
    };
    let logprobs_key = str_to_chars("logprobs");
    let logprobs: Option<bool> = match attr_lookup_exec(attrs, &logprobs_key) {
        None => None,
        Some(v) => parse_bool_chars(v),
    };
    let top_logprobs_key = str_to_chars("top-logprobs");
    let top_logprobs: Option<i64> = match attr_lookup_exec(attrs, &top_logprobs_key) {
        None => None,
        Some(v) => crate::text_api::common::parse_int_chars(v),
    };
    let response_format_key = str_to_chars("response-format");
    let response_format: Option<ResponseFormat> = match attr_lookup_exec(
        attrs,
        &response_format_key,
    ) {
        None => None,
        Some(v) => {
            let l = lower_chars(v);
            let json_hyphen = str_to_chars("json-object");
            let json_underscore = str_to_chars("json_object");
            let text_lit = str_to_chars("text");
            if eq_chars(&l, &json_hyphen) || eq_chars(&l, &json_underscore) {
                Some(ResponseFormat::JsonObject)
            } else if eq_chars(&l, &text_lit) {
                Some(ResponseFormat::Text)
            } else {
                None
            }
        },
    };
    let messages = scan_messages_exec(body, 0);
    RequestBuilder {
        model,
        stream,
        temperature,
        n,
        max_tokens,
        top_p,
        frequency_penalty,
        presence_penalty,
        logprobs,
        top_logprobs,
        response_format,
        messages,
    }
}

/// Strict boolean coercion over a character buffer.
fn parse_bool_chars(v: &Vec<char>) -> (r: Option<bool>)
    ensures
        r == spec_parse_bool(v@),
{
    let true_lit = str_to_chars("true");
    let false_lit = str_to_chars("false");
    if eq_chars(v, &true_lit) {
        Some(true)
    } else if eq_chars(v, &false_lit) {
        Some(false)
    } else {
        None
    }
}

/// Exec form of [`spec_scan_messages`].
fn scan_messages_exec(s: &Vec<char>, i: usize) -> (r: Vec<Message>)
    requires
        i <= s@.len(),
    ensures
        r@.map_values(|m: Message| m@) == spec_scan_messages(s@, i as int),
    decreases s@.len() - i,
{
    proof {
        reveal_strlit("<message");
        reveal_strlit("</message>");
        lemma_find_at(s@, "<message"@, i as int);
    }
    let open_pat = str_to_chars("<message");
    let n = s.len();
    match find_at(s, &open_pat, i) {
        None => {
            let r: Vec<Message> = Vec::new();
            proof {
                assert(r@.map_values(|m: Message| m@) =~= spec_scan_messages(s@, i as int));
            }
            r
        },
        Some(p) => {
            assert(p + 8 <= n);
            if p + 8 < n && is_name_char_exec(s[p + 8]) {
                scan_messages_exec(s, p + 1)
            } else {
                match parse_attrs(s, p + 8) {
                    None => scan_messages_exec(s, p + 1),
                    Some((attrs, body, sc)) => {
                        if sc {
                            let empty: Vec<char> = Vec::new();
                            let head = message_from(&attrs, &empty);
                            let mut rest = scan_messages_exec(s, body);
                            let mut out: Vec<Message> = Vec::new();
                            out.push(head);
                            let ghost head_snap = out@;
                            let ghost rest_snap = rest@;
                            out.append(&mut rest);
                            proof {
                                lemma_map_values_concat_message(head_snap, rest_snap);
                                assert(out@.map_values(|m: Message| m@) =~= spec_scan_messages(
                                    s@,
                                    i as int,
                                ));
                            }
                            out
                        } else {
                            proof {
                                lemma_find_at(s@, "</message>"@, body as int);
                            }
                            let close_pat = str_to_chars("</message>");
                            match find_at(s, &close_pat, body) {
                                None => scan_messages_exec(s, p + 1),
                                Some(c) => {
                                    assert(c + 10 <= n);
                                    let inner = crate::text_api::common::copy_range(s, body, c);
                                    let head = message_from(&attrs, &inner);
                                    let mut rest = scan_messages_exec(s, c + 10);
                                    let mut out: Vec<Message> = Vec::new();
                                    out.push(head);
                                    let ghost head_snap = out@;
                                    let ghost rest_snap = rest@;
                                    out.append(&mut rest);
                                    proof {
                                        lemma_map_values_concat_message(head_snap, rest_snap);
                                        assert(out@.map_values(|m: Message| m@)
                                            =~= spec_scan_messages(s@, i as int));
                                    }
                                    out
                                },
                            }
                        }
                    },
                }
            }
        },
    }
}

/// Mapping a view over a concatenation is the concatenation of the mappings.
proof fn lemma_map_values_concat_message(a: Seq<Message>, b: Seq<Message>)
    ensures
        (a + b).map_values(|m: Message| m@) == a.map_values(|m: Message| m@) + b.map_values(
            |m: Message| m@,
        ),
{
    assert((a + b).map_values(|m: Message| m@) =~= a.map_values(|m: Message| m@) + b.map_values(
        |m: Message| m@,
    ));
}

proof fn lemma_map_values_concat_prompt(a: Seq<Prompt>, b: Seq<Prompt>)
    ensures
        (a + b).map_values(|p: Prompt| p@) == a.map_values(|p: Prompt| p@) + b.map_values(
            |p: Prompt| p@,
        ),
{
    assert((a + b).map_values(|p: Prompt| p@) =~= a.map_values(|p: Prompt| p@) + b.map_values(
        |p: Prompt| p@,
    ));
}

/// Exec form of [`spec_scan_prompts`].
fn scan_prompts_exec(s: &Vec<char>, i: usize) -> (r: Vec<Prompt>)
    requires
        i <= s@.len(),
    ensures
        r@.map_values(|p: Prompt| p@) == spec_scan_prompts(s@, i as int),
    decreases s@.len() - i,
{
    proof {
        reveal_strlit("<prompt");
        reveal_strlit("</prompt>");
        lemma_find_at(s@, "<prompt"@, i as int);
    }
    let open_pat = str_to_chars("<prompt");
    let n = s.len();
    match find_at(s, &open_pat, i) {
        None => {
            let r: Vec<Prompt> = Vec::new();
            proof {
                assert(r@.map_values(|p: Prompt| p@) =~= spec_scan_prompts(s@, i as int));
            }
            r
        },
        Some(p) => {
            assert(p + 7 <= n);
            if p + 7 < n && is_name_char_exec(s[p + 7]) {
                scan_prompts_exec(s, p + 1)
            } else {
                match parse_attrs(s, p + 7) {
                    None => scan_prompts_exec(s, p + 1),
                    Some((attrs, body, sc)) => {
                        if sc {
                            let empty: Vec<char> = Vec::new();
                            let head = prompt_from(&attrs, &empty);
                            let mut rest = scan_prompts_exec(s, body);
                            let mut out: Vec<Prompt> = Vec::new();
                            out.push(head);
                            let ghost head_snap = out@;
                            let ghost rest_snap = rest@;
                            out.append(&mut rest);
                            proof {
                                lemma_map_values_concat_prompt(head_snap, rest_snap);
                                assert(out@.map_values(|q: Prompt| q@) =~= spec_scan_prompts(
                                    s@,
                                    i as int,
                                ));
                            }
                            out
                        } else {
                            proof {
                                lemma_find_at(s@, "</prompt>"@, body as int);
                            }
                            let close_pat = str_to_chars("</prompt>");
                            match find_at(s, &close_pat, body) {
                                None => scan_prompts_exec(s, p + 1),
                                Some(c) => {
                                    assert(c + 9 <= n);
                                    let inner = crate::text_api::common::copy_range(s, body, c);
                                    let head = prompt_from(&attrs, &inner);
                                    let mut rest = scan_prompts_exec(s, c + 9);
                                    let mut out: Vec<Prompt> = Vec::new();
                                    out.push(head);
                                    let ghost head_snap = out@;
                                    let ghost rest_snap = rest@;
                                    out.append(&mut rest);
                                    proof {
                                        lemma_map_values_concat_prompt(head_snap, rest_snap);
                                        assert(out@.map_values(|q: Prompt| q@)
                                            =~= spec_scan_prompts(s@, i as int));
                                    }
                                    out
                                },
                            }
                        }
                    },
                }
            }
        },
    }
}

/// One prompt element's [`Prompt`], from its attributes and body.
fn prompt_from(attrs: &Vec<(Vec<char>, Vec<char>)>, body: &Vec<char>) -> (r: Prompt)
    ensures
        r@ == prompt_of(attrs_view(attrs@), body@),
{
    let name_key = str_to_chars("name");
    let name: Option<String> = match attr_lookup_exec(attrs, &name_key) {
        None => None,
        Some(v) => Some(chars_to_string(v)),
    };
    let request = draft_from(attrs, body);
    Prompt { name, request }
}

impl PromptCollection {
    /// Compiles rendered markup text into the ordered collection of its
    /// prompt elements. A document with no prompt element yields an empty
    /// collection; malformed elements are skipped.
    pub fn compile(rendered: &str) -> (r: PromptCollection)
        ensures
            r@ == spec_compile(rendered@),
    {
        let chars = str_to_chars(rendered);
        let prompts = scan_prompts_exec(&chars, 0);
        PromptCollection { prompts }
    }

    /// Renders template text against the variable context, then compiles the
    /// result.
    pub fn parse(contents: &str, globals: &liquid::Object) -> (r: Result<
        PromptCollection,
        crate::text_api::client::Error,
    >)
        ensures
            r matches Ok(c) ==> exists|rendered: Seq<char>| c@ == #[trigger] spec_compile(rendered),
            r matches Err(e) ==> e is Template,
    {
        match crate::text_api::template::render(contents, globals) {
            Ok(rendered) => {
                let c = PromptCollection::compile(rendered.as_str());
                Ok(c)
            },
            Err(e) => Err(crate::text_api::client::Error::Template(e)),
        }
    }

    /// How many prompts the collection holds.
    pub fn len(&self) -> (r: usize)
        ensures
            r == self@.len(),
    {
        self.prompts.len()
    }

    /// The prompt at a position, in document order.
    pub fn at(&self, i: usize) -> (r: &Prompt)
        requires
            i < self@.len(),
        ensures
            r@ == self@[i as int],
    {
        &self.prompts[i]
    }

    /// The first prompt with the given name, or `None`; lookup returns the
    /// first match and enforces no uniqueness.
    pub fn get(&self, prompt_name: &str) -> (r: Option<Prompt>)
        ensures
            match r {
                Some(p) => spec_lookup(self@, prompt_name@) == Some(p@),
                None => spec_lookup(self@, prompt_name@) is None,
            },
    {
        let target = str_to_chars(prompt_name);
        let n = self.prompts.len();
        proof {
            assert(self@.skip(0) =~= self@);
        }
        let mut i: usize = 0;
        while i < n
            invariant
                0 <= i <= n == self.prompts@.len(),
                target@ == prompt_name@,
                spec_lookup(self@, prompt_name@) == spec_lookup(self@.skip(i as int), prompt_name@),
                self@ == self.prompts@.map_values(|p: Prompt| p@),
            decreases n - i,
        {
            proof {
                assert(self@.skip(i as int)[0] == self@[i as int]);
                assert(self@[i as int] == self.prompts@.map_values(|p: Prompt| p@)[i as int]);
                assert(self@[i as int] == self.prompts@[i as int]@);
            }
            let prompt_ref = &self.prompts[i];
            proof {
                assert(prompt_ref@ == self@[i as int]);
            }
            match &prompt_ref.name {
                Some(name) => {
                    proof {
                        assert(prompt_ref@.name == Some(name@));
                    }
                    let name_chars = str_to_chars(name.as_str());
                    if eq_chars(&name_chars, &target) {
                        proof {
                            assert(self@.skip(i as int)[0].name == Some(prompt_name@));
                        }
                        let p = self.prompts[i].clone();
                        return Some(p);
                    }
                    proof {
                        assert(self@.skip(i as int)[0].name != Some(prompt_name@));
                    }
                },
                None => {
                    proof {
                        assert(self@.skip(i as int)[0].name is None);
                    }
                },
            }
            proof {
                assert(self@.skip(i as int)[0].name != Some(prompt_name@));
                assert(self@.skip(i as int).drop_first() =~= self@.skip(i + 1 as int));
            }
            i = i + 1;
        }
        proof {
            assert(self@.skip(n as int) =~= Seq::<PromptView>::empty());
        }
        None
    }
}

impl Prompt {
    /// Starts an API call carrying this prompt's request draft.
    pub fn client_builder(self) -> (r: crate::text_api::client::ApiCallBuilder)
        ensures
            r.request_body matches Some(b) && b@ == self@.request,
            r.api_url is None,
            r.api_key is None,
            r.timeout is None,
            r.logger is None,
    {
        let builder = crate::text_api::client::ApiCallBuilder::default();
        builder.with_request_body(self.request)
    }

    /// Renders and compiles a document, then looks one prompt up by name; an
    /// unknown name is the one hard failure of this composite operation.
    pub fn parse(contents: &str, prompt_name: &str, globals: &liquid::Object) -> (r: Result<
        Prompt,
        crate::text_api::client::Error,
    >)
        ensures
            r matches Ok(p) ==> exists|rendered: Seq<char>|
                spec_lookup(#[trigger] spec_compile(rendered), prompt_name@) == Some(p@),
            r matches Err(e) ==> (e matches crate::text_api::client::Error::NotFound(nf)
                ==> nf.0@ == prompt_name@),
    {
        let collection = match PromptCollection::parse(contents, globals) {
            Ok(c) => c,
            Err(e) => {
                return Err(e);
            },
        };
        match collection.get(prompt_name) {
            Some(p) => Ok(p),
            None => Err(
                crate::text_api::client::Error::NotFound(
                    crate::text_api::client::PromptNotFound(prompt_name.to_owned()),
                ),
            ),
        }
    }
}

} // verus!
