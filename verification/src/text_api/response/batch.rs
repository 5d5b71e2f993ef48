//! The data model for complete (batch) responses, delivered as one JSON
//! document.

use vstd::prelude::*;

use crate::text_api::common::Integer;
use crate::text_api::json::{spec_obj_get, JsonValue, JsonView};
use crate::text_api::response::{
    spec_as_int, spec_opt_logprob, spec_opt_str, spec_req_str, as_int, logprob_from,
    toolcalls_from, funcall_from, spec_funcall_of, spec_toolcalls_from, FunctionCall,
    FunctionCallView, LogProbability, LogProbabilityView, ToolCall, ToolCallView,
};

verus! {

/// One full message of a batch response.
#[derive(Debug, Clone)]
pub struct Message {
    pub content: Option<String>,
    pub tool_calls: Option<Vec<ToolCall>>,
    pub role: String,
    pub function_call: Option<FunctionCall>,
}

pub struct MessageView {
    pub content: Option<Seq<char>>,
    pub tool_calls: Option<Seq<ToolCallView>>,
    pub role: Seq<char>,
    pub function_call: Option<FunctionCallView>,
}

impl View for Message {
    type V = MessageView;

    open spec fn view(&self) -> MessageView {
        MessageView {
            content: match self.content {
                Some(ref s) => Some(s@),
                None => None,
            },
            tool_calls: match self.tool_calls {
                Some(ref ts) => Some(ts@.map_values(|t: ToolCall| t@)),
                None => None,
            },
            role: self.role@,
            function_call: match self.function_call {
                Some(ref f) => Some(f@),
                None => None,
            },
        }
    }
}

/// One finished output slot of a batch response.
#[derive(Debug, Clone)]
pub struct Choice {
    pub finish_reason: String,
    pub index: Integer,
    pub message: Message,
    pub logprobs: Option<LogProbability>,
}

pub struct ChoiceView {
    pub finish_reason: Seq<char>,
    pub index: Integer,
    pub message: MessageView,
    pub logprobs: Option<LogProbabilityView>,
}

impl View for Choice {
    type V = ChoiceView;

    open spec fn view(&self) -> ChoiceView {
        ChoiceView {
            finish_reason: self.finish_reason@,
            index: self.index,
            message: self.message@,
            logprobs: match self.logprobs {
                Some(ref l) => Some(l@),
                None => None,
            },
        }
    }
}

/// Token accounting of one exchange.
#[derive(Debug, Clone)]
pub struct Usage {
    pub completion_tokens: Integer,
    pub prompt_tokens: Integer,
    pub total_tokens: Integer,
}

/// One complete batch response.
#[derive(Debug, Clone)]
pub struct Response {
    pub id: String,
    pub choices: Vec<Choice>,
    pub created: Integer,
    pub model: String,
    pub system_fingerprint: Option<String>,
    pub object: String,
    pub usage: Usage,
}

pub struct ResponseView {
    pub id: Seq<char>,
    pub choices: Seq<ChoiceView>,
    pub created: Integer,
    pub model: Seq<char>,
    pub system_fingerprint: Option<Seq<char>>,
    pub object: Seq<char>,
    pub usage: Usage,
}

impl View for Response {
    type V = ResponseView;

    open spec fn view(&self) -> ResponseView {
        ResponseView {
            id: self.id@,
            choices: self.choices@.map_values(|c: Choice| c@),
            created: self.created,
            model: self.model@,
            system_fingerprint: match self.system_fingerprint {
                Some(ref s) => Some(s@),
                None => None,
            },
            object: self.object@,
            usage: self.usage,
        }
    }
}

/// A full message record: `role` is required; the rest is optional.
pub open spec fn spec_message_of(j: JsonView) -> Option<MessageView> {
    match j {
        JsonView::Obj(fields) => {
            let role = spec_req_str(spec_obj_get(fields, "role"@));
            let content = spec_opt_str(spec_obj_get(fields, "content"@));
            let function_call = match spec_obj_get(fields, "function_call"@) {
                None => Some(None),
                Some(JsonView::Null) => Some(None),
                Some(x) => match spec_funcall_of(x) {
                    None => None,
                    Some(f) => Some(Some(f)),
                },
            };
            let tool_calls = match spec_obj_get(fields, "tool_calls"@) {
                None => Some(None),
                Some(JsonView::Null) => Some(None),
                Some(JsonView::Arr(items)) => match spec_toolcalls_from(items, 0) {
                    None => None,
                    Some(ts) => Some(Some(ts)),
                },
                _ => None,
            };
            match (role, content, function_call, tool_calls) {
                (Some(ro), Some(c), Some(f), Some(t)) => Some(
                    MessageView { content: c, tool_calls: t, role: ro, function_call: f },
                ),
                _ => None,
            }
        },
        _ => None,
    }
}

pub fn message_from(j: &JsonValue) -> (r: Option<Message>)
    ensures
        match r {
            Some(m) => spec_message_of(j@) == Some(m@),
            None => spec_message_of(j@) is None,
        },
{
    match j {
        JsonValue::Obj(fields) => {
            let role = match crate::text_api::json::obj_get(fields, "role") {
                Some(JsonValue::Str(t)) => t.clone(),
                _ => {
                    return None;
                },
            };
            let content: Option<String> = match crate::text_api::json::obj_get(fields, "content") {
                None => None,
                Some(JsonValue::Null) => None,
                Some(JsonValue::Str(t)) => Some(t.clone()),
                _ => {
                    return None;
                },
            };
            let function_call: Option<FunctionCall> = match crate::text_api::json::obj_get(
                fields,
                "function_call",
            ) {
                None => None,
                Some(JsonValue::Null) => None,
                Some(x) => match funcall_from(x) {
                    Some(f) => Some(f),
                    None => {
                        return None;
                    },
                },
            };
            let tool_calls: Option<Vec<ToolCall>> = match crate::text_api::json::obj_get(
                fields,
                "tool_calls",
            ) {
                None => None,
                Some(JsonValue::Null) => None,
                Some(JsonValue::Arr(items)) => match toolcalls_from(items, 0) {
                    Some(ts) => Some(ts),
                    None => {
                        return None;
                    },
                },
                _ => {
                    return None;
                },
            };
            Some(Message { content, tool_calls, role, function_call })
        },
        _ => None,
    }
}

/// A batch choice record: `finish_reason`, `index` and `message` required.
pub open spec fn spec_choice_of(j: JsonView) -> Option<ChoiceView> {
    match j {
        JsonView::Obj(fields) => {
            let finish_reason = spec_req_str(spec_obj_get(fields, "finish_reason"@));
            let index = match spec_obj_get(fields, "index"@) {
                Some(x) => spec_as_int(x),
                None => None,
            };
            let message = match spec_obj_get(fields, "message"@) {
                Some(x) => spec_message_of(x),
                None => None,
            };
            let logprobs = spec_opt_logprob(spec_obj_get(fields, "logprobs"@));
            match (finish_reason, index, message, logprobs) {
                (Some(fr), Some(ix), Some(m), Some(lp)) => Some(
                    ChoiceView { finish_reason: fr, index: ix, message: m, logprobs: lp },
                ),
                _ => None,
            }
        },
        _ => None,
    }
}

pub fn choice_from(j: &JsonValue) -> (r: Option<Choice>)
    ensures
        match r {
            Some(c) => spec_choice_of(j@) == Some(c@),
            None => spec_choice_of(j@) is None,
        },
{
    match j {
        JsonValue::Obj(fields) => {
            let finish_reason = match crate::text_api::json::obj_get(fields, "finish_reason") {
                Some(JsonValue::Str(t)) => t.clone(),
                _ => {
                    return None;
                },
            };
            let index = match crate::text_api::json::obj_get(fields, "index") {
                Some(x) => match as_int(x) {
                    Some(i) => i,
                    None => {
                        return None;
                    },
                },
                None => {
                    return None;
                },
            };
            let message = match crate::text_api::json::obj_get(fields, "message") {
                Some(x) => match message_from(x) {
                    Some(m) => m,
                    None => {
                        return None;
                    },
                },
                None => {
                    return None;
                },
            };
            let logprobs: Option<LogProbability> = match crate::text_api::json::obj_get(
                fields,
                "logprobs",
            ) {
                None => None,
                Some(JsonValue::Null) => None,
                Some(x) => match logprob_from(x) {
                    Some(l) => Some(l),
                    None => {
                        return None;
                    },
                },
            };
            Some(Choice { finish_reason, index, message, logprobs })
        },
        _ => None,
    }
}

pub open spec fn spec_choices_from(items: Seq<JsonView>, i: int) -> Option<Seq<ChoiceView>>
    decreases items.len() - i,
{
    if i < 0 {
        None
    } else if i >= items.len() {
        Some(Seq::empty())
    } else {
        match spec_choice_of(items[i]) {
            None => None,
            Some(c) => match spec_choices_from(items, i + 1) {
                None => None,
                Some(r) => Some(seq![c] + r),
            },
        }
    }
}

pub fn choices_from(items: &Vec<JsonValue>, i: usize) -> (r: Option<Vec<Choice>>)
    requires
        i <= items@.len(),
    ensures
        match r {
            Some(v) => spec_choices_from(crate::text_api::json::json_views(items@), i as int)
                == Some(v@.map_values(|c: Choice| c@)),
            None => spec_choices_from(crate::text_api::json::json_views(items@), i as int) is None,
        },
    decreases items@.len() - i,
{
    proof {
        crate::text_api::json::lemma_json_views_len(items@);
    }
    if i >= items.len() {
        let r: Vec<Choice> = Vec::new();
        proof {
            assert(r@.map_values(|c: Choice| c@) =~= Seq::<ChoiceView>::empty());
        }
        return Some(r);
    }
    proof {
        crate::text_api::json::lemma_json_views_index(items@, i as int);
    }
    let head = match choice_from(&items[i]) {
        None => {
            return None;
        },
        Some(c) => c,
    };
    let mut rest = match choices_from(items, i + 1) {
        None => {
            return None;
        },
        Some(v) => v,
    };
    let ghost head_view = head@;
    let ghost rest_snap = rest@;
    let mut out: Vec<Choice> = Vec::new();
    out.push(head);
    out.append(&mut rest);
    proof {
        let f = |c: Choice| c@;
        assert forall|k: int| 0 <= k < out@.len() implies out@.map_values(f)[k] == (seq![head_view]
            + rest_snap.map_values(f))[k] by {
            if k > 0 {
                assert(out@[k] == rest_snap[k - 1]);
            }
        }
        assert(out@.map_values(f) =~= seq![head_view] + rest_snap.map_values(f));
    }
    Some(out)
}

/// The usage record: all three counters required.
pub open spec fn spec_usage_of(j: JsonView) -> Option<Usage> {
    match j {
        JsonView::Obj(fields) => {
            let completion = match spec_obj_get(fields, "completion_tokens"@) {
                Some(x) => spec_as_int(x),
                None => None,
            };
            let prompt = match spec_obj_get(fields, "prompt_tokens"@) {
                Some(x) => spec_as_int(x),
                None => None,
            };
            let total = match spec_obj_get(fields, "total_tokens"@) {
                Some(x) => spec_as_int(x),
                None => None,
            };
            match (completion, prompt, total) {
                (Some(c), Some(p), Some(t)) => Some(
                    Usage { completion_tokens: c, prompt_tokens: p, total_tokens: t },
                ),
                _ => None,
            }
        },
        _ => None,
    }
}

pub fn usage_from(j: &JsonValue) -> (r: Option<Usage>)
    ensures
        r == spec_usage_of(j@),
{
    match j {
        JsonValue::Obj(fields) => {
            let completion = match crate::text_api::json::obj_get(fields, "completion_tokens") {
                Some(x) => match as_int(x) {
                    Some(i) => i,
                    None => {
                        return None;
                    },
                },
                None => {
                    return None;
                },
            };
            let prompt = match crate::text_api::json::obj_get(fields, "prompt_tokens") {
                Some(x) => match as_int(x) {
                    Some(i) => i,
                    None => {
                        return None;
                    },
                },
                None => {
                    return None;
                },
            };
            let total = match crate::text_api::json::obj_get(fields, "total_tokens") {
                Some(x) => match as_int(x) {
                    Some(i) => i,
                    None => {
                        return None;
                    },
                },
                None => {
                    return None;
                },
            };
            Some(Usage { completion_tokens: completion, prompt_tokens: prompt, total_tokens: total })
        },
        _ => None,
    }
}

/// A complete batch response: `id`, `choices`, `created`, `model`, `object`
/// and `usage` required, `system_fingerprint` optional.
pub open spec fn spec_response_of(j: JsonView) -> Option<ResponseView> {
    match j {
        JsonView::Obj(fields) => {
            let id = spec_req_str(spec_obj_get(fields, "id"@));
            let choices = match spec_obj_get(fields, "choices"@) {
                Some(JsonView::Arr(items)) => spec_choices_from(items, 0),
                _ => None,
            };
            let created = match spec_obj_get(fields, "created"@) {
                Some(x) => spec_as_int(x),
                None => None,
            };
            let model = spec_req_str(spec_obj_get(fields, "model"@));
            let system_fingerprint = spec_opt_str(spec_obj_get(fields, "system_fingerprint"@));
            let object = spec_req_str(spec_obj_get(fields, "object"@));
            let usage = match spec_obj_get(fields, "usage"@) {
                Some(x) => spec_usage_of(x),
                None => None,
            };
            match (id, choices, created, model, system_fingerprint, object, usage) {
                (Some(i), Some(cs), Some(cr), Some(m), Some(sf), Some(o), Some(u)) => Some(
                    ResponseView {
                        id: i,
                        choices: cs,
                        created: cr,
                        model: m,
                        system_fingerprint: sf,
                        object: o,
                        usage: u,
                    },
                ),
                _ => None,
            }
        },
        _ => None,
    }
}

/// Maps one parsed JSON document onto a batch response.
pub fn response_from_json(j: &JsonValue) -> (r: Option<Response>)
    ensures
        match r {
            Some(resp) => spec_response_of(j@) == Some(resp@),
            None => spec_response_of(j@) is None,
        },
{
    match j {
        JsonValue::Obj(fields) => {
            let id = match crate::text_api::json::obj_get(fields, "id") {
                Some(JsonValue::Str(t)) => t.clone(),
                _ => {
                    return None;
                },
            };
            let choices = match crate::text_api::json::obj_get(fields, "choices") {
                Some(JsonValue::Arr(items)) => match choices_from(items, 0) {
                    Some(cs) => cs,
                    None => {
                        return None;
                    },
                },
                _ => {
                    return None;
                },
            };
            let created = match crate::text_api::json::obj_get(fields, "created") {
                Some(x) => match as_int(x) {
                    Some(i) => i,
                    None => {
                        return None;
                    },
                },
                None => {
                    return None;
                },
            };
            let model = match crate::text_api::json::obj_get(fields, "model") {
                Some(JsonValue::Str(t)) => t.clone(),
                _ => {
                    return None;
                },
            };
            let system_fingerprint: Option<String> = match crate::text_api::json::obj_get(
                fields,
                "system_fingerprint",
            ) {
                None => None,
                Some(JsonValue::Null) => None,
                Some(JsonValue::Str(t)) => Some(t.clone()),
                _ => {
                    return None;
                },
            };
            let object = match crate::text_api::json::obj_get(fields, "object") {
                Some(JsonValue::Str(t)) => t.clone(),
                _ => {
                    return None;
                },
            };
            let usage = match crate::text_api::json::obj_get(fields, "usage") {
                Some(x) => match usage_from(x) {
                    Some(u) => u,
                    None => {
                        return None;
                    },
                },
                None => {
                    return None;
                },
            };
            Some(Response { id, choices, created, model, system_fingerprint, object, usage })
        },
        _ => None,
    }
}

/// Deserializes one complete JSON response document into the batch shape.
pub fn parse_batch_response(body: &str) -> (r: Option<Response>)
    ensures
        match r {
            Some(resp) => (match crate::text_api::json::json_parsed(body@) {
                Some(j) => spec_response_of(j) == Some(resp@),
                None => false,
            }),
            None => (match crate::text_api::json::json_parsed(body@) {
                Some(j) => spec_response_of(j) is None,
                None => true,
            }),
        },
{
    match crate::text_api::json::parse_json(body) {
        Some(j) => response_from_json(&j),
        None => None,
    }
}

} // verus!
