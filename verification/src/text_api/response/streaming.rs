//! The data model for streaming responses: one chunk per server-sent event,
//! each carrying incremental deltas for one or more choices.

use vstd::prelude::*;

use crate::text_api::common::Integer;
use crate::text_api::json::{spec_obj_get, JsonValue, JsonView};
use crate::text_api::response::{
    spec_as_int, spec_opt_logprob, spec_opt_str, spec_int_or_zero, spec_str_or_empty, as_int,
    logprob_from, toolcalls_from, funcall_from, spec_funcall_of, spec_toolcalls_from,
    FunctionCall, FunctionCallView, LogProbability, LogProbabilityView, ToolCall, ToolCallView,
};

verus! {

/// The incremental content carried by one chunk for one choice.
#[derive(Debug, Clone)]
pub struct MessageDelta {
    pub content: Option<String>,
    pub function_call: Option<FunctionCall>,
    pub tool_calls: Option<Vec<ToolCall>>,
    pub role: Option<String>,
}

pub struct MessageDeltaView {
    pub content: Option<Seq<char>>,
    pub function_call: Option<FunctionCallView>,
    pub tool_calls: Option<Seq<ToolCallView>>,
    pub role: Option<Seq<char>>,
}

impl View for MessageDelta {
    type V = MessageDeltaView;

    open spec fn view(&self) -> MessageDeltaView {
        MessageDeltaView {
            content: match self.content {
                Some(ref s) => Some(s@),
                None => None,
            },
            function_call: match self.function_call {
                Some(ref f) => Some(f@),
                None => None,
            },
            tool_calls: match self.tool_calls {
                Some(ref ts) => Some(ts@.map_values(|t: ToolCall| t@)),
                None => None,
            },
            role: match self.role {
                Some(ref s) => Some(s@),
                None => None,
            },
        }
    }
}

/// One output slot's entry within a chunk. The `index` identifies the logical
/// slot across the whole stream.
#[derive(Debug, Clone)]
pub struct Choice {
    pub delta: MessageDelta,
    pub logprobs: Option<LogProbability>,
    pub finish_reason: Option<String>,
    pub index: Integer,
}

pub struct ChoiceView {
    pub delta: MessageDeltaView,
    pub logprobs: Option<LogProbabilityView>,
    pub finish_reason: Option<Seq<char>>,
    pub index: Integer,
}

impl View for Choice {
    type V = ChoiceView;

    open spec fn view(&self) -> ChoiceView {
        ChoiceView {
            delta: self.delta@,
            logprobs: match self.logprobs {
                Some(ref l) => Some(l@),
                None => None,
            },
            finish_reason: match self.finish_reason {
                Some(ref s) => Some(s@),
                None => None,
            },
            index: self.index,
        }
    }
}

/// One streamed chunk. Scalar fields the wire leaves out default to empty or
/// zero; the `choices` list and each choice's shape are required.
#[derive(Debug, Clone)]
pub struct ResponseChunk {
    pub id: String,
    pub choices: Vec<Choice>,
    pub created: Integer,
    pub model: String,
    pub system_fingerprint: Option<String>,
    pub object: String,
}

pub struct ResponseChunkView {
    pub id: Seq<char>,
    pub choices: Seq<ChoiceView>,
    pub created: Integer,
    pub model: Seq<char>,
    pub system_fingerprint: Option<Seq<char>>,
    pub object: Seq<char>,
}

impl View for ResponseChunk {
    type V = ResponseChunkView;

    open spec fn view(&self) -> ResponseChunkView {
        ResponseChunkView {
            id: self.id@,
            choices: self.choices@.map_values(|c: Choice| c@),
            created: self.created,
            model: self.model@,
            system_fingerprint: match self.system_fingerprint {
                Some(ref s) => Some(s@),
                None => None,
            },
            object: self.object@,
        }
    }
}

/// The delta record of a choice: every field optional.
pub open spec fn spec_delta_of(j: JsonView) -> Option<MessageDeltaView> {
    match j {
        JsonView::Obj(fields) => {
            let content = spec_opt_str(spec_obj_get(fields, "content"@));
            let role = spec_opt_str(spec_obj_get(fields, "role"@));
            let function_call = match spec_obj_get(fields, "function_call"@) {
                None => Some(None),
                Some(JsonView::Null) => Some(None),
                Some(x) => match spec_funcall_of(x) {
                    None => None,
                    Some(f) => Some(Some(f)),
                },
            };
            let tool_calls = match spec_obj_get(fields, "tool_calls"@) {
                None => Some(None),
                Some(JsonView::Null) => Some(None),
                Some(JsonView::Arr(items)) => match spec_toolcalls_from(items, 0) {
                    None => None,
                    Some(ts) => Some(Some(ts)),
                },
                _ => None,
            };
            match (content, role, function_call, tool_calls) {
                (Some(c), Some(ro), Some(f), Some(t)) => Some(
                    MessageDeltaView { content: c, function_call: f, tool_calls: t, role: ro },
                ),
                _ => None,
            }
        },
        _ => None,
    }
}

pub fn delta_from(j: &JsonValue) -> (r: Option<MessageDelta>)
    ensures
        match r {
            Some(d) => spec_delta_of(j@) == Some(d@),
            None => spec_delta_of(j@) is None,
        },
{
    match j {
        JsonValue::Obj(fields) => {
            let content: Option<String> = match crate::text_api::json::obj_get(fields, "content") {
                None => None,
                Some(JsonValue::Null) => None,
                Some(JsonValue::Str(t)) => Some(t.clone()),
                _ => {
                    return None;
                },
            };
            let role: Option<String> = match crate::text_api::json::obj_get(fields, "role") {
                None => None,
                Some(JsonValue::Null) => None,
                Some(JsonValue::Str(t)) => Some(t.clone()),
                _ => {
                    return None;
                },
            };
            let function_call: Option<FunctionCall> = match crate::text_api::json::obj_get(
                fields,
                "function_call",
            ) {
                None => None,
                Some(JsonValue::Null) => None,
                Some(x) => match funcall_from(x) {
                    Some(f) => Some(f),
                    None => {
                        return None;
                    },
                },
            };
            let tool_calls: Option<Vec<ToolCall>> = match crate::text_api::json::obj_get(
                fields,
                "tool_calls",
            ) {
                None => None,
                Some(JsonValue::Null) => None,
                Some(JsonValue::Arr(items)) => match toolcalls_from(items, 0) {
                    Some(ts) => Some(ts),
                    None => {
                        return None;
                    },
                },
                _ => {
                    return None;
                },
            };
            Some(MessageDelta { content, function_call, tool_calls, role })
        },
        _ => None,
    }
}

/// A choice record: `index` and `delta` are required; `finish_reason` and
/// `logprobs` are optional.
pub open spec fn spec_choice_of(j: JsonView) -> Option<ChoiceView> {
    match j {
        JsonView::Obj(fields) => {
            let index = match spec_obj_get(fields, "index"@) {
                Some(x) => spec_as_int(x),
                None => None,
            };
            let delta = match spec_obj_get(fields, "delta"@) {
                Some(x) => spec_delta_of(x),
                None => None,
            };
            let finish_reason = spec_opt_str(spec_obj_get(fields, "finish_reason"@));
            let logprobs = spec_opt_logprob(spec_obj_get(fields, "logprobs"@));
            match (index, delta, finish_reason, logprobs) {
                (Some(ix), Some(d), Some(fr), Some(lp)) => Some(
                    ChoiceView { delta: d, logprobs: lp, finish_reason: fr, index: ix },
                ),
                _ => None,
            }
        },
        _ => None,
    }
}

pub fn choice_from(j: &JsonValue) -> (r: Option<Choice>)
    ensures
        match r {
            Some(c) => spec_choice_of(j@) == Some(c@),
            None => spec_choice_of(j@) is None,
        },
{
    match j {
        JsonValue::Obj(fields) => {
            let index = match crate::text_api::json::obj_get(fields, "index") {
                Some(x) => match as_int(x) {
                    Some(i) => i,
                    None => {
                        return None;
                    },
                },
                None => {
                    return None;
                },
            };
            let delta = match crate::text_api::json::obj_get(fields, "delta") {
                Some(x) => match delta_from(x) {
                    Some(d) => d,
                    None => {
                        return None;
                    },
                },
                None => {
                    return None;
                },
            };
            let finish_reason: Option<String> = match crate::text_api::json::obj_get(
                fields,
                "finish_reason",
            ) {
                None => None,
                Some(JsonValue::Null) => None,
                Some(JsonValue::Str(t)) => Some(t.clone()),
                _ => {
                    return None;
                },
            };
            let logprobs: Option<LogProbability> = match crate::text_api::json::obj_get(
                fields,
                "logprobs",
            ) {
                None => None,
                Some(JsonValue::Null) => None,
                Some(x) => match logprob_from(x) {
                    Some(l) => Some(l),
                    None => {
                        return None;
                    },
                },
            };
            Some(Choice { delta, logprobs, finish_reason, index })
        },
        _ => None,
    }
}

pub open spec fn spec_choices_from(items: Seq<JsonView>, i: int) -> Option<Seq<ChoiceView>>
    decreases items.len() - i,
{
    if i < 0 {
        None
    } else if i >= items.len() {
        Some(Seq::empty())
    } else {
        match spec_choice_of(items[i]) {
            None => None,
            Some(c) => match spec_choices_from(items, i + 1) {
                None => None,
                Some(r) => Some(seq![c] + r),
            },
        }
    }
}

pub fn choices_from(items: &Vec<JsonValue>, i: usize) -> (r: Option<Vec<Choice>>)
    requires
        i <= items@.len(),
    ensures
        match r {
            Some(v) => spec_choices_from(crate::text_api::json::json_views(items@), i as int)
                == Some(v@.map_values(|c: Choice| c@)),
            None => spec_choices_from(crate::text_api::json::json_views(items@), i as int) is None,
        },
    decreases items@.len() - i,
{
    proof {
        crate::text_api::json::lemma_json_views_len(items@);
    }
    if i >= items.len() {
        let r: Vec<Choice> = Vec::new();
        proof {
            assert(r@.map_values(|c: Choice| c@) =~= Seq::<ChoiceView>::empty());
        }
        return Some(r);
    }
    proof {
        crate::text_api::json::lemma_json_views_index(items@, i as int);
    }
    let head = match choice_from(&items[i]) {
        None => {
            return None;
        },
        Some(c) => c,
    };
    let mut rest = match choices_from(items, i + 1) {
        None => {
            return None;
        },
        Some(v) => v,
    };
    let ghost head_view = head@;
    let ghost rest_snap = rest@;
    let mut out: Vec<Choice> = Vec::new();
    out.push(head);
    out.append(&mut rest);
    proof {
        let f = |c: Choice| c@;
        assert forall|k: int| 0 <= k < out@.len() implies out@.map_values(f)[k] == (seq![head_view]
            + rest_snap.map_values(f))[k] by {
            if k > 0 {
                assert(out@[k] == rest_snap[k - 1]);
            }
        }
        assert(out@.map_values(f) =~= seq![head_view] + rest_snap.map_values(f));
    }
    Some(out)
}

/// The chunk carried by one parsed JSON document: `choices` is required and
/// each choice must be well-formed; the scalar fields default when absent.
pub open spec fn spec_chunk_of(j: JsonView) -> Option<ResponseChunkView> {
    match j {
        JsonView::Obj(fields) => {
            match spec_obj_get(fields, "choices"@) {
                Some(JsonView::Arr(items)) => match spec_choices_from(items, 0) {
                    None => None,
                    Some(cs) => match spec_opt_str(spec_obj_get(fields, "system_fingerprint"@)) {
                        None => None,
                        Some(sf) => Some(
                            ResponseChunkView {
                                id: spec_str_or_empty(spec_obj_get(fields, "id"@)),
                                choices: cs,
                                created: spec_int_or_zero(spec_obj_get(fields, "created"@)),
                                model: spec_str_or_empty(spec_obj_get(fields, "model"@)),
                                system_fingerprint: sf,
                                object: spec_str_or_empty(spec_obj_get(fields, "object"@)),
                            },
                        ),
                    },
                },
                _ => None,
            }
        },
        _ => None,
    }
}

/// Maps one parsed JSON document onto a chunk, or rejects it as not matching
/// the chunk shape.
pub fn chunk_from_json(j: &JsonValue) -> (r: Option<ResponseChunk>)
    ensures
        match r {
            Some(c) => spec_chunk_of(j@) == Some(c@),
            None => spec_chunk_of(j@) is None,
        },
{
    match j {
        JsonValue::Obj(fields) => {
            let choices = match crate::text_api::json::obj_get(fields, "choices") {
                Some(JsonValue::Arr(items)) => match choices_from(items, 0) {
                    Some(cs) => cs,
                    None => {
                        return None;
                    },
                },
                _ => {
                    return None;
                },
            };
            let system_fingerprint: Option<String> = match crate::text_api::json::obj_get(
                fields,
                "system_fingerprint",
            ) {
                None => None,
                Some(JsonValue::Null) => None,
                Some(JsonValue::Str(t)) => Some(t.clone()),
                _ => {
                    return None;
                },
            };
            let id: String = match crate::text_api::json::obj_get(fields, "id") {
                Some(JsonValue::Str(t)) => t.clone(),
                _ => String::new(),
            };
            let created: i64 = match crate::text_api::json::obj_get(fields, "created") {
                Some(x) => match as_int(x) {
                    Some(i) => i,
                    None => 0,
                },
                None => 0,
            };
            let model: String = match crate::text_api::json::obj_get(fields, "model") {
                Some(JsonValue::Str(t)) => t.clone(),
                _ => String::new(),
            };
            let object: String = match crate::text_api::json::obj_get(fields, "object") {
                Some(JsonValue::Str(t)) => t.clone(),
                _ => String::new(),
            };
            Some(ResponseChunk { id, choices, created, model, system_fingerprint, object })
        },
        _ => None,
    }
}

} // verus!
