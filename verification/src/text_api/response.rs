//! The data model for chat-completion responses, batch and streaming, and the
//! verified mapping from parsed wire JSON onto it.

pub mod batch;
pub mod streaming;

use vstd::prelude::*;

use crate::text_api::common::{spec_parse_int, is_number_lit, Integer};
use crate::text_api::json::{spec_i64_text, spec_obj_get, JsonValue, JsonView, json_field_views};
use crate::text_api::request::Number;

verus! {

/// A function invocation reported by the model.
#[derive(Debug, Clone)]
pub struct FunctionCall {
    pub name: String,
    pub arguments: String,
}

pub struct FunctionCallView {
    pub name: Seq<char>,
    pub arguments: Seq<char>,
}

impl View for FunctionCall {
    type V = FunctionCallView;

    open spec fn view(&self) -> FunctionCallView {
        FunctionCallView { name: self.name@, arguments: self.arguments@ }
    }
}

/// A tool invocation reported by the model. The wire calls the `kind` field
/// `type`.
#[derive(Debug, Clone)]
pub struct ToolCall {
    pub index: Integer,
    pub id: String,
    pub kind: String,
    pub function: FunctionCall,
}

pub struct ToolCallView {
    pub index: Integer,
    pub id: Seq<char>,
    pub kind: Seq<char>,
    pub function: FunctionCallView,
}

impl View for ToolCall {
    type V = ToolCallView;

    open spec fn view(&self) -> ToolCallView {
        ToolCallView { index: self.index, id: self.id@, kind: self.kind@, function: self.function@ }
    }
}

/// One token's log-probability record.
#[derive(Debug, Clone)]
pub struct TopLogProbability {
    pub token: String,
    pub logprob: Number,
    pub bytes: Vec<Integer>,
}

pub struct TopLogProbabilityView {
    pub token: Seq<char>,
    pub logprob: Seq<char>,
    pub bytes: Seq<Integer>,
}

impl View for TopLogProbability {
    type V = TopLogProbabilityView;

    open spec fn view(&self) -> TopLogProbabilityView {
        TopLogProbabilityView { token: self.token@, logprob: self.logprob@, bytes: self.bytes@ }
    }
}

/// One sampled token's log-probability record with its alternatives.
#[derive(Debug, Clone)]
pub struct MessageLogProbability {
    pub token: String,
    pub logprob: Number,
    pub bytes: Vec<Integer>,
    pub top_logprobs: Vec<TopLogProbability>,
}

pub struct MessageLogProbabilityView {
    pub token: Seq<char>,
    pub logprob: Seq<char>,
    pub bytes: Seq<Integer>,
    pub top_logprobs: Seq<TopLogProbabilityView>,
}

impl View for MessageLogProbability {
    type V = MessageLogProbabilityView;

    open spec fn view(&self) -> MessageLogProbabilityView {
        MessageLogProbabilityView {
            token: self.token@,
            logprob: self.logprob@,
            bytes: self.bytes@,
            top_logprobs: self.top_logprobs@.map_values(|t: TopLogProbability| t@),
        }
    }
}

/// The log-probability block of one choice.
#[derive(Debug, Clone)]
pub struct LogProbability {
    pub content: Option<Vec<MessageLogProbability>>,
}

pub struct LogProbabilityView {
    pub content: Option<Seq<MessageLogProbabilityView>>,
}

impl View for LogProbability {
    type V = LogProbabilityView;

    open spec fn view(&self) -> LogProbabilityView {
        LogProbabilityView {
            content: match self.content {
                Some(v) => Some(v@.map_values(|m: MessageLogProbability| m@)),
                None => None,
            },
        }
    }
}

// ---------------------------------------------------------------------------
// Shared readers over parsed JSON
// ---------------------------------------------------------------------------
/// An integer carried by a JSON value, whether as a machine integer or as
/// integer-shaped number text.
pub open spec fn spec_as_int(j: JsonView) -> Option<Integer> {
    match j {
        JsonView::Int(i) => Some(i),
        JsonView::Num(t) => spec_parse_int(t),
        _ => None,
    }
}

/// A required string field's text.
pub open spec fn spec_req_str(o: Option<JsonView>) -> Option<Seq<char>> {
    match o {
        Some(JsonView::Str(t)) => Some(t),
        _ => None,
    }
}

/// An optional string field: absent and `null` both mean `None`; any other
/// non-string value fails the record.
pub open spec fn spec_opt_str(o: Option<JsonView>) -> Option<Option<Seq<char>>> {
    match o {
        None => Some(None),
        Some(JsonView::Null) => Some(None),
        Some(JsonView::Str(t)) => Some(Some(t)),
        _ => None,
    }
}

/// A string field that defaults to empty when absent or of another shape.
pub open spec fn spec_str_or_empty(o: Option<JsonView>) -> Seq<char> {
    match o {
        Some(JsonView::Str(t)) => t,
        _ => Seq::empty(),
    }
}

/// An integer field that defaults to zero when absent or of another shape.
pub open spec fn spec_int_or_zero(o: Option<JsonView>) -> Integer {
    match o {
        Some(j) => match spec_as_int(j) {
            Some(i) => i,
            None => 0,
        },
        None => 0,
    }
}

/// The number text carried by a JSON value, as the strict grammar accepts it.
pub open spec fn spec_as_number_text(j: JsonView) -> Option<Seq<char>> {
    match j {
        JsonView::Num(t) => if is_number_lit(t) {
            Some(t)
        } else {
            None
        },
        JsonView::Int(i) => if is_number_lit(spec_i64_text(i as int)) {
            Some(spec_i64_text(i as int))
        } else {
            None
        },
        _ => None,
    }
}

/// Executable readers over a parsed object's field list.
pub fn as_int(j: &JsonValue) -> (r: Option<Integer>)
    ensures
        r == spec_as_int(j@),
{
    match j {
        JsonValue::Int(i) => Some(*i),
        JsonValue::Num(t) => {
            let chars = crate::text_api::common::str_to_chars(t.as_str());
            crate::text_api::common::parse_int_chars(&chars)
        },
        _ => None,
    }
}

pub fn as_number(j: &JsonValue) -> (r: Option<Number>)
    ensures
        match r {
            Some(n) => spec_as_number_text(j@) == Some(n@),
            None => spec_as_number_text(j@) is None,
        },
{
    match j {
        JsonValue::Num(t) => {
            let chars = crate::text_api::common::str_to_chars(t.as_str());
            Number::from_chars(&chars)
        },
        JsonValue::Int(i) => {
            let chars = crate::text_api::json::i64_chars(*i);
            Number::from_chars(&chars)
        },
        _ => None,
    }
}

/// The integers of a JSON array, required whole.
pub open spec fn spec_ints_from(items: Seq<JsonView>, i: int) -> Option<Seq<Integer>>
    decreases items.len() - i,
{
    if i < 0 {
        None
    } else if i >= items.len() {
        Some(Seq::empty())
    } else {
        match spec_as_int(items[i]) {
            None => None,
            Some(v) => match spec_ints_from(items, i + 1) {
                None => None,
                Some(r) => Some(seq![v] + r),
            },
        }
    }
}

pub fn ints_from(items: &Vec<JsonValue>, i: usize) -> (r: Option<Vec<Integer>>)
    requires
        i <= items@.len(),
    ensures
        match r {
            Some(v) => spec_ints_from(crate::text_api::json::json_views(items@), i as int) == Some(
                v@,
            ),
            None => spec_ints_from(crate::text_api::json::json_views(items@), i as int) is None,
        },
    decreases items@.len() - i,
{
    proof {
        crate::text_api::json::lemma_json_views_len(items@);
    }
    if i >= items.len() {
        let r: Vec<Integer> = Vec::new();
        proof {
            assert(r@ =~= Seq::<Integer>::empty());
        }
        return Some(r);
    }
    proof {
        crate::text_api::json::lemma_json_views_index(items@, i as int);
    }
    let head = match as_int(&items[i]) {
        None => {
            return None;
        },
        Some(v) => v,
    };
    let mut rest = match ints_from(items, i + 1) {
        None => {
            return None;
        },
        Some(v) => v,
    };
    let mut out: Vec<Integer> = Vec::new();
    out.push(head);
    let ghost head_snap = out@;
    let ghost rest_snap = rest@;
    out.append(&mut rest);
    proof {
        assert(out@ =~= seq![head] + rest_snap);
    }
    Some(out)
}

// ---------------------------------------------------------------------------
// Shared record mappers
// ---------------------------------------------------------------------------
/// The function-call record of a JSON object: `name` and `arguments` are
/// required strings.
pub open spec fn spec_funcall_of(j: JsonView) -> Option<FunctionCallView> {
    match j {
        JsonView::Obj(fields) => {
            let name = spec_req_str(spec_obj_get(fields, "name"@));
            let arguments = spec_req_str(spec_obj_get(fields, "arguments"@));
            match (name, arguments) {
                (Some(n), Some(a)) => Some(FunctionCallView { name: n, arguments: a }),
                _ => None,
            }
        },
        _ => None,
    }
}

pub fn funcall_from(j: &JsonValue) -> (r: Option<FunctionCall>)
    ensures
        match r {
            Some(f) => spec_funcall_of(j@) == Some(f@),
            None => spec_funcall_of(j@) is None,
        },
{
    match j {
        JsonValue::Obj(fields) => {
            let name = match crate::text_api::json::obj_get(fields, "name") {
                Some(JsonValue::Str(t)) => t.clone(),
                _ => {
                    return None;
                },
            };
            let arguments = match crate::text_api::json::obj_get(fields, "arguments") {
                Some(JsonValue::Str(t)) => t.clone(),
                _ => {
                    return None;
                },
            };
            Some(FunctionCall { name, arguments })
        },
        _ => None,
    }
}

/// The tool-call record: `index`, `id`, `type` and `function` are all
/// required.
pub open spec fn spec_toolcall_of(j: JsonView) -> Option<ToolCallView> {
    match j {
        JsonView::Obj(fields) => {
            let index = match spec_obj_get(fields, "index"@) {
                Some(x) => spec_as_int(x),
                None => None,
            };
            let id = spec_req_str(spec_obj_get(fields, "id"@));
            let kind = spec_req_str(spec_obj_get(fields, "type"@));
            let function = match spec_obj_get(fields, "function"@) {
                Some(x) => spec_funcall_of(x),
                None => None,
            };
            match (index, id, kind, function) {
                (Some(ix), Some(idv), Some(k), Some(f)) => Some(
                    ToolCallView { index: ix, id: idv, kind: k, function: f },
                ),
                _ => None,
            }
        },
        _ => None,
    }
}

pub fn toolcall_from(j: &JsonValue) -> (r: Option<ToolCall>)
    ensures
        match r {
            Some(t) => spec_toolcall_of(j@) == Some(t@),
            None => spec_toolcall_of(j@) is None,
        },
{
    match j {
        JsonValue::Obj(fields) => {
            let index = match crate::text_api::json::obj_get(fields, "index") {
                Some(x) => match as_int(x) {
                    Some(i) => i,
                    None => {
                        return None;
                    },
                },
                None => {
                    return None;
                },
            };
            let id = match crate::text_api::json::obj_get(fields, "id") {
                Some(JsonValue::Str(t)) => t.clone(),
                _ => {
                    return None;
                },
            };
            let kind = match crate::text_api::json::obj_get(fields, "type") {
                Some(JsonValue::Str(t)) => t.clone(),
                _ => {
                    return None;
                },
            };
            let function = match crate::text_api::json::obj_get(fields, "function") {
                Some(x) => match funcall_from(x) {
                    Some(f) => f,
                    None => {
                        return None;
                    },
                },
                None => {
                    return None;
                },
            };
            Some(ToolCall { index, id, kind, function })
        },
        _ => None,
    }
}

/// The tool calls of a JSON array, required whole.
pub open spec fn spec_toolcalls_from(items: Seq<JsonView>, i: int) -> Option<Seq<ToolCallView>>
    decreases items.len() - i,
{
    if i < 0 {
        None
    } else if i >= items.len() {
        Some(Seq::empty())
    } else {
        match spec_toolcall_of(items[i]) {
            None => None,
            Some(t) => match spec_toolcalls_from(items, i + 1) {
                None => None,
                Some(r) => Some(seq![t] + r),
            },
        }
    }
}

pub fn toolcalls_from(items: &Vec<JsonValue>, i: usize) -> (r: Option<Vec<ToolCall>>)
    requires
        i <= items@.len(),
    ensures
        match r {
            Some(v) => spec_toolcalls_from(crate::text_api::json::json_views(items@), i as int)
                == Some(v@.map_values(|t: ToolCall| t@)),
            None => spec_toolcalls_from(
                crate::text_api::json::json_views(items@),
                i as int,
            ) is None,
        },
    decreases items@.len() - i,
{
    proof {
        crate::text_api::json::lemma_json_views_len(items@);
    }
    if i >= items.len() {
        let r: Vec<ToolCall> = Vec::new();
        proof {
            assert(r@.map_values(|t: ToolCall| t@) =~= Seq::<ToolCallView>::empty());
        }
        return Some(r);
    }
    proof {
        crate::text_api::json::lemma_json_views_index(items@, i as int);
    }
    let head = match toolcall_from(&items[i]) {
        None => {
            return None;
        },
        Some(t) => t,
    };
    let mut rest = match toolcalls_from(items, i + 1) {
        None => {
            return None;
        },
        Some(v) => v,
    };
    let ghost head_view = head@;
    let ghost rest_snap = rest@;
    let mut out: Vec<ToolCall> = Vec::new();
    out.push(head);
    out.append(&mut rest);
    proof {
        let f = |t: ToolCall| t@;
        assert forall|k: int| 0 <= k < out@.len() implies out@.map_values(f)[k] == (seq![head_view]
            + rest_snap.map_values(f))[k] by {
            if k > 0 {
                assert(out@[k] == rest_snap[k - 1]);
            }
        }
        assert(out@.map_values(f) =~= seq![head_view] + rest_snap.map_values(f));
    }
    Some(out)
}

/// One alternative-token record: `token`, `logprob` and `bytes` required.
pub open spec fn spec_tlp_of(j: JsonView) -> Option<TopLogProbabilityView> {
    match j {
        JsonView::Obj(fields) => {
            let token = spec_req_str(spec_obj_get(fields, "token"@));
            let logprob = match spec_obj_get(fields, "logprob"@) {
                Some(x) => spec_as_number_text(x),
                None => None,
            };
            let bytes = match spec_obj_get(fields, "bytes"@) {
                Some(JsonView::Arr(items)) => spec_ints_from(items, 0),
                _ => None,
            };
            match (token, logprob, bytes) {
                (Some(t), Some(l), Some(b)) => Some(
                    TopLogProbabilityView { token: t, logprob: l, bytes: b },
                ),
                _ => None,
            }
        },
        _ => None,
    }
}

pub fn tlp_from(j: &JsonValue) -> (r: Option<TopLogProbability>)
    ensures
        match r {
            Some(t) => spec_tlp_of(j@) == Some(t@),
            None => spec_tlp_of(j@) is None,
        },
{
    match j {
        JsonValue::Obj(fields) => {
            let token = match crate::text_api::json::obj_get(fields, "token") {
                Some(JsonValue::Str(t)) => t.clone(),
                _ => {
                    return None;
                },
            };
            let logprob = match crate::text_api::json::obj_get(fields, "logprob") {
                Some(x) => match as_number(x) {
                    Some(n) => n,
                    None => {
                        return None;
                    },
                },
                None => {
                    return None;
                },
            };
            let bytes = match crate::text_api::json::obj_get(fields, "bytes") {
                Some(JsonValue::Arr(items)) => match ints_from(items, 0) {
                    Some(b) => b,
                    None => {
                        return None;
                    },
                },
                _ => {
                    return None;
                },
            };
            Some(TopLogProbability { token, logprob, bytes })
        },
        _ => None,
    }
}

pub open spec fn spec_tlps_from(items: Seq<JsonView>, i: int) -> Option<Seq<TopLogProbabilityView>>
    decreases items.len() - i,
{
    if i < 0 {
        None
    } else if i >= items.len() {
        Some(Seq::empty())
    } else {
        match spec_tlp_of(items[i]) {
            None => None,
            Some(t) => match spec_tlps_from(items, i + 1) {
                None => None,
                Some(r) => Some(seq![t] + r),
            },
        }
    }
}

pub fn tlps_from(items: &Vec<JsonValue>, i: usize) -> (r: Option<Vec<TopLogProbability>>)
    requires
        i <= items@.len(),
    ensures
        match r {
            Some(v) => spec_tlps_from(crate::text_api::json::json_views(items@), i as int) == Some(
                v@.map_values(|t: TopLogProbability| t@),
            ),
            None => spec_tlps_from(crate::text_api::json::json_views(items@), i as int) is None,
        },
    decreases items@.len() - i,
{
    proof {
        crate::text_api::json::lemma_json_views_len(items@);
    }
    if i >= items.len() {
        let r: Vec<TopLogProbability> = Vec::new();
        proof {
            assert(r@.map_values(|t: TopLogProbability| t@)
                =~= Seq::<TopLogProbabilityView>::empty());
        }
        return Some(r);
    }
    proof {
        crate::text_api::json::lemma_json_views_index(items@, i as int);
    }
    let head = match tlp_from(&items[i]) {
        None => {
            return None;
        },
        Some(t) => t,
    };
    let mut rest = match tlps_from(items, i + 1) {
        None => {
            return None;
        },
        Some(v) => v,
    };
    let ghost head_view = head@;
    let ghost rest_snap = rest@;
    let mut out: Vec<TopLogProbability> = Vec::new();
    out.push(head);
    out.append(&mut rest);
    proof {
        let f = |t: TopLogProbability| t@;
        assert forall|k: int| 0 <= k < out@.len() implies out@.map_values(f)[k] == (seq![head_view]
            + rest_snap.map_values(f))[k] by {
            if k > 0 {
                assert(out@[k] == rest_snap[k - 1]);
            }
        }
        assert(out@.map_values(f) =~= seq![head_view] + rest_snap.map_values(f));
    }
    Some(out)
}

/// One sampled-token record: `token`, `logprob`, `bytes` and `top_logprobs`
/// required.
pub open spec fn spec_mlp_of(j: JsonView) -> Option<MessageLogProbabilityView> {
    match j {
        JsonView::Obj(fields) => {
            let token = spec_req_str(spec_obj_get(fields, "token"@));
            let logprob = match spec_obj_get(fields, "logprob"@) {
                Some(x) => spec_as_number_text(x),
                None => None,
            };
            let bytes = match spec_obj_get(fields, "bytes"@) {
                Some(JsonView::Arr(items)) => spec_ints_from(items, 0),
                _ => None,
            };
            let top = match spec_obj_get(fields, "top_logprobs"@) {
                Some(JsonView::Arr(items)) => spec_tlps_from(items, 0),
                _ => None,
            };
            match (token, logprob, bytes, top) {
                (Some(t), Some(l), Some(b), Some(tp)) => Some(
                    MessageLogProbabilityView { token: t, logprob: l, bytes: b, top_logprobs: tp },
                ),
                _ => None,
            }
        },
        _ => None,
    }
}

pub fn mlp_from(j: &JsonValue) -> (r: Option<MessageLogProbability>)
    ensures
        match r {
            Some(m) => spec_mlp_of(j@) == Some(m@),
            None => spec_mlp_of(j@) is None,
        },
{
    match j {
        JsonValue::Obj(fields) => {
            let token = match crate::text_api::json::obj_get(fields, "token") {
                Some(JsonValue::Str(t)) => t.clone(),
                _ => {
                    return None;
                },
            };
            let logprob = match crate::text_api::json::obj_get(fields, "logprob") {
                Some(x) => match as_number(x) {
                    Some(n) => n,
                    None => {
                        return None;
                    },
                },
                None => {
                    return None;
                },
            };
            let bytes = match crate::text_api::json::obj_get(fields, "bytes") {
                Some(JsonValue::Arr(items)) => match ints_from(items, 0) {
                    Some(b) => b,
                    None => {
                        return None;
                    },
                },
                _ => {
                    return None;
                },
            };
            let top_logprobs = match crate::text_api::json::obj_get(fields, "top_logprobs") {
                Some(JsonValue::Arr(items)) => match tlps_from(items, 0) {
                    Some(t) => t,
                    None => {
                        return None;
                    },
                },
                _ => {
                    return None;
                },
            };
            Some(MessageLogProbability { token, logprob, bytes, top_logprobs })
        },
        _ => None,
    }
}

pub open spec fn spec_mlps_from(items: Seq<JsonView>, i: int) -> Option<
    Seq<MessageLogProbabilityView>,
>
    decreases items.len() - i,
{
    if i < 0 {
        None
    } else if i >= items.len() {
        Some(Seq::empty())
    } else {
        match spec_mlp_of(items[i]) {
            None => None,
            Some(m) => match spec_mlps_from(items, i + 1) {
                None => None,
                Some(r) => Some(seq![m] + r),
            },
        }
    }
}

pub fn mlps_from(items: &Vec<JsonValue>, i: usize) -> (r: Option<Vec<MessageLogProbability>>)
    requires
        i <= items@.len(),
    ensures
        match r {
            Some(v) => spec_mlps_from(crate::text_api::json::json_views(items@), i as int) == Some(
                v@.map_values(|m: MessageLogProbability| m@),
            ),
            None => spec_mlps_from(crate::text_api::json::json_views(items@), i as int) is None,
        },
    decreases items@.len() - i,
{
    proof {
        crate::text_api::json::lemma_json_views_len(items@);
    }
    if i >= items.len() {
        let r: Vec<MessageLogProbability> = Vec::new();
        proof {
            assert(r@.map_values(|m: MessageLogProbability| m@)
                =~= Seq::<MessageLogProbabilityView>::empty());
        }
        return Some(r);
    }
    proof {
        crate::text_api::json::lemma_json_views_index(items@, i as int);
    }
    let head = match mlp_from(&items[i]) {
        None => {
            return None;
        },
        Some(m) => m,
    };
    let mut rest = match mlps_from(items, i + 1) {
        None => {
            return None;
        },
        Some(v) => v,
    };
    let ghost head_view = head@;
    let ghost rest_snap = rest@;
    let mut out: Vec<MessageLogProbability> = Vec::new();
    out.push(head);
    out.append(&mut rest);
    proof {
        let f = |m: MessageLogProbability| m@;
        assert forall|k: int| 0 <= k < out@.len() implies out@.map_values(f)[k] == (seq![head_view]
            + rest_snap.map_values(f))[k] by {
            if k > 0 {
                assert(out@[k] == rest_snap[k - 1]);
            }
        }
        assert(out@.map_values(f) =~= seq![head_view] + rest_snap.map_values(f));
    }
    Some(out)
}

/// The log-probability block: `content` may be absent or `null`; when present
/// it must be an array of sampled-token records.
pub open spec fn spec_logprob_of(j: JsonView) -> Option<LogProbabilityView> {
    match j {
        JsonView::Obj(fields) => {
            match spec_obj_get(fields, "content"@) {
                None => Some(LogProbabilityView { content: None }),
                Some(JsonView::Null) => Some(LogProbabilityView { content: None }),
                Some(JsonView::Arr(items)) => match spec_mlps_from(items, 0) {
                    None => None,
                    Some(ms) => Some(LogProbabilityView { content: Some(ms) }),
                },
                _ => None,
            }
        },
        _ => None,
    }
}

pub fn logprob_from(j: &JsonValue) -> (r: Option<LogProbability>)
    ensures
        match r {
            Some(l) => spec_logprob_of(j@) == Some(l@),
            None => spec_logprob_of(j@) is None,
        },
{
    match j {
        JsonValue::Obj(fields) => {
            match crate::text_api::json::obj_get(fields, "content") {
                None => Some(LogProbability { content: None }),
                Some(JsonValue::Null) => Some(LogProbability { content: None }),
                Some(JsonValue::Arr(items)) => match mlps_from(items, 0) {
                    Some(ms) => Some(LogProbability { content: Some(ms) }),
                    None => None,
                },
                _ => None,
            }
        },
        _ => None,
    }
}

/// An optional log-probability field: absent and `null` mean `None`; a
/// present block must be well-formed.
pub open spec fn spec_opt_logprob(o: Option<JsonView>) -> Option<Option<LogProbabilityView>> {
    match o {
        None => Some(None),
        Some(JsonView::Null) => Some(None),
        Some(j) => match spec_logprob_of(j) {
            None => None,
            Some(l) => Some(Some(l)),
        },
    }
}

} // verus!
