//! The wire shape of a request: the JSON object sent to the chat-completions
//! endpoint, with every unset optional field omitted entirely.

use vstd::prelude::*;

use crate::text_api::common::{is_number_lit, str_to_chars};
use crate::text_api::json::{
    json_field_views, json_view, json_views, lemma_json_field_views_index, lemma_json_views_index,
    spec_obj_get, JsonValue, JsonView,
};
use crate::text_api::request::{
    Message, MessageView, Number, Request, RequestView, ResponseFormat, Role,
};

verus! {

/// Mapping views over a pushed element appends the element's view.
pub proof fn lemma_views_push(a: Seq<JsonValue>, x: JsonValue)
    ensures
        json_views(a.push(x)) == json_views(a).push(json_view(x)),
{
    crate::text_api::json::lemma_json_views_len(a);
    crate::text_api::json::lemma_json_views_len(a.push(x));
    assert forall|i: int| 0 <= i < a.len() + 1 implies json_views(a.push(x))[i] == json_views(
        a,
    ).push(json_view(x))[i] by {
        lemma_json_views_index(a.push(x), i);
        if i < a.len() {
            lemma_json_views_index(a, i);
        }
    }
    assert(json_views(a.push(x)) =~= json_views(a).push(json_view(x)));
}

pub proof fn lemma_field_views_push(a: Seq<(String, JsonValue)>, k: String, x: JsonValue)
    ensures
        json_field_views(a.push((k, x))) == json_field_views(a).push((k@, json_view(x))),
{
    crate::text_api::json::lemma_json_field_views_len(a);
    crate::text_api::json::lemma_json_field_views_len(a.push((k, x)));
    assert forall|i: int| 0 <= i < a.len() + 1 implies json_field_views(a.push((k, x)))[i]
        == json_field_views(a).push((k@, json_view(x)))[i] by {
        lemma_json_field_views_index(a.push((k, x)), i);
        if i < a.len() {
            lemma_json_field_views_index(a, i);
        }
    }
    assert(json_field_views(a.push((k, x))) =~= json_field_views(a).push((k@, json_view(x))));
}

/// The wire spelling of a role.
pub open spec fn role_text(r: Role) -> Seq<char> {
    match r {
        Role::System => "system"@,
        Role::User => "user"@,
        Role::Assistant => "assistant"@,
    }
}

/// The role named by a wire spelling; anything unrecognized is `User`.
pub open spec fn role_of_text(t: Seq<char>) -> Role {
    if t == "system"@ {
        Role::System
    } else if t == "assistant"@ {
        Role::Assistant
    } else {
        Role::User
    }
}

/// The wire spelling of a response format.
pub open spec fn format_text(f: ResponseFormat) -> Seq<char> {
    match f {
        ResponseFormat::JsonObject => "json_object"@,
        ResponseFormat::Text => "text"@,
    }
}

/// The wire object of one message.
pub open spec fn spec_message_json(m: MessageView) -> JsonView {
    JsonView::Obj(
        seq![("role"@, JsonView::Str(role_text(m.role))), ("content"@, JsonView::Str(m.content))],
    )
}

/// One optional wire field: nothing when unset.
pub open spec fn opt_field(name: Seq<char>, o: Option<JsonView>) -> Seq<(Seq<char>, JsonView)> {
    match o {
        None => Seq::empty(),
        Some(j) => seq![(name, j)],
    }
}

pub open spec fn map_opt<A, B>(o: Option<A>, f: spec_fn(A) -> B) -> Option<B> {
    match o {
        None => None,
        Some(a) => Some(f(a)),
    }
}

/// The wire fields of a request, in order; unset optional fields are omitted
/// entirely, never sent as nulls.
pub open spec fn spec_opt_fields_a(r: RequestView) -> Seq<(Seq<char>, JsonView)> {
    opt_field("stream"@, map_opt(r.stream, |b: bool| JsonView::Bool(b))) + opt_field(
        "temperature"@,
        map_opt(r.temperature, |t: Seq<char>| JsonView::Num(t)),
    ) + opt_field("n"@, map_opt(r.n, |v: i64| JsonView::Int(v))) + opt_field(
        "max_tokens"@,
        map_opt(r.max_tokens, |v: i64| JsonView::Int(v)),
    ) + opt_field("top_p"@, map_opt(r.top_p, |t: Seq<char>| JsonView::Num(t)))
}

pub open spec fn spec_opt_fields_b(r: RequestView) -> Seq<(Seq<char>, JsonView)> {
    opt_field("frequency_penalty"@, map_opt(r.frequency_penalty, |t: Seq<char>| JsonView::Num(t)))
        + opt_field(
        "presence_penalty"@,
        map_opt(r.presence_penalty, |t: Seq<char>| JsonView::Num(t)),
    ) + opt_field("logprobs"@, map_opt(r.logprobs, |b: bool| JsonView::Bool(b))) + opt_field(
        "top_logprobs"@,
        map_opt(r.top_logprobs, |v: i64| JsonView::Int(v)),
    ) + opt_field(
        "response_format"@,
        map_opt(r.response_format, |f: ResponseFormat| JsonView::Str(format_text(f))),
    )
}

pub open spec fn spec_optional_fields(r: RequestView) -> Seq<(Seq<char>, JsonView)> {
    spec_opt_fields_a(r) + spec_opt_fields_b(r)
}

/// The wire fields of a request, in order; unset optional fields are omitted
/// entirely, never sent as nulls.
pub open spec fn spec_request_fields(r: RequestView) -> Seq<(Seq<char>, JsonView)> {
    seq![
        ("model"@, JsonView::Str(r.model)),
        (
            "messages"@,
            JsonView::Arr(r.messages.map_values(|m: MessageView| spec_message_json(m))),
        ),
    ] + spec_optional_fields(r)
}

/// The wire object of a request.
pub open spec fn spec_request_json(r: RequestView) -> JsonView {
    JsonView::Obj(spec_request_fields(r))
}

/// The wire spelling of a role, executable form.
fn role_text_exec(r: Role) -> (t: String)
    ensures
        t@ == role_text(r),
{
    match r {
        Role::System => "system".to_owned(),
        Role::User => "user".to_owned(),
        Role::Assistant => "assistant".to_owned(),
    }
}

/// The wire object of one message, executable form.
fn message_json(m: &Message) -> (r: JsonValue)
    ensures
        r@ == spec_message_json(m@),
{
    let mut fields: Vec<(String, JsonValue)> = Vec::new();
    fields.push(("role".to_owned(), JsonValue::Str(role_text_exec(m.role))));
    fields.push(("content".to_owned(), JsonValue::Str(m.content.clone())));
    let r = JsonValue::Obj(fields);
    proof {
        let g = spec_message_json(m@)->Obj_0;
        lemma_json_field_views_index(r->Obj_0@, 0);
        lemma_json_field_views_index(r->Obj_0@, 1);
        assert(json_field_views(r->Obj_0@) =~= g);
    }
    r
}

impl Request {
    /// The request's wire object.
    #[verifier::rlimit(100)]
    pub fn to_json(&self) -> (r: JsonValue)
        ensures
            r@ == spec_request_json(self@),
    {
        let mut fields: Vec<(String, JsonValue)> = Vec::new();
        fields.push(("model".to_owned(), JsonValue::Str(self.model.clone())));
        let mut msgs: Vec<JsonValue> = Vec::new();
        let n = self.messages.len();
        let mut i: usize = 0;
        while i < n
            invariant
                0 <= i <= n == self.messages@.len(),
                json_views(msgs@) == self.messages@.subrange(0, i as int).map_values(
                    |m: Message| spec_message_json(m@),
                ),
            decreases n - i,
        {
            let mj = message_json(&self.messages[i]);
            proof {
                lemma_views_push(msgs@, mj);
                assert(json_views(msgs@.push(mj)) =~= self.messages@.subrange(0, i + 1 as int)
                    .map_values(|m: Message| spec_message_json(m@)));
            }
            msgs.push(mj);
            i = i + 1;
        }
        proof {
            assert(self.messages@.subrange(0, n as int) =~= self.messages@);
            assert(self.messages@.map_values(|m: Message| spec_message_json(m@))
                =~= self@.messages.map_values(|m: MessageView| spec_message_json(m)));
        }
        fields.push(("messages".to_owned(), JsonValue::Arr(msgs)));
        proof {
            lemma_json_field_views_index(fields@, 0);
            lemma_json_field_views_index(fields@, 1);
            assert(json_field_views(fields@) =~= seq![
                ("model"@, JsonView::Str(self@.model)),
                (
                    "messages"@,
                    JsonView::Arr(self@.messages.map_values(|m: MessageView| spec_message_json(m))),
                ),
            ]);
        }
        self.push_optional_fields(&mut fields);
        let r = JsonValue::Obj(fields);
        proof {
            assert(json_field_views(r->Obj_0@) =~= spec_request_fields(self@));
        }
        r
    }

    /// Appends the optional wire fields, in order, skipping the unset ones.
    fn push_optional_fields(&self, fields: &mut Vec<(String, JsonValue)>)
        ensures
            json_field_views(final(fields)@) == json_field_views(old(fields)@)
                + spec_optional_fields(self@),
    {
        self.push_optional_fields_a(fields);
        self.push_optional_fields_b(fields);
        proof {
            assert(json_field_views(fields@) =~= json_field_views(old(fields)@)
                + spec_optional_fields(self@));
        }
    }

    /// The first half of the optional wire fields.
    #[verifier::rlimit(100)]
    fn push_optional_fields_a(&self, fields: &mut Vec<(String, JsonValue)>)
        ensures
            json_field_views(final(fields)@) == json_field_views(old(fields)@)
                + spec_opt_fields_a(self@),
    {
        let ghost base0 = json_field_views(fields@);
        match &self.stream {
            Some(b) => {
                let kv = ("stream".to_owned(), JsonValue::Bool(*b));
                proof {
                    lemma_field_views_push(fields@, kv.0, kv.1);
                }
                fields.push(kv);
            },
            None => (),
        }
        proof {
            assert(json_field_views(fields@) =~= base0 + opt_field(
                "stream"@,
                map_opt(self@.stream, |x: bool| JsonView::Bool(x)),
            ));
        }
        let ghost base1 = json_field_views(fields@);
        match &self.temperature {
            Some(t) => {
                let v = JsonValue::Num(t.as_text().to_owned());
                let kv = ("temperature".to_owned(), v);
                proof {
                    lemma_field_views_push(fields@, kv.0, kv.1);
                }
                fields.push(kv);
            },
            None => (),
        }
        proof {
            assert(json_field_views(fields@) =~= base1 + opt_field(
                "temperature"@,
                map_opt(self@.temperature, |x: Seq<char>| JsonView::Num(x)),
            ));
        }
        let ghost base2 = json_field_views(fields@);
        match &self.n {
            Some(v) => {
                let kv = ("n".to_owned(), JsonValue::Int(*v));
                proof {
                    lemma_field_views_push(fields@, kv.0, kv.1);
                }
                fields.push(kv);
            },
            None => (),
        }
        proof {
            assert(json_field_views(fields@) =~= base2 + opt_field(
                "n"@,
                map_opt(self@.n, |x: i64| JsonView::Int(x)),
            ));
        }
        let ghost base3 = json_field_views(fields@);
        match &self.max_tokens {
            Some(v) => {
                let kv = ("max_tokens".to_owned(), JsonValue::Int(*v));
                proof {
                    lemma_field_views_push(fields@, kv.0, kv.1);
                }
                fields.push(kv);
            },
            None => (),
        }
        proof {
            assert(json_field_views(fields@) =~= base3 + opt_field(
                "max_tokens"@,
                map_opt(self@.max_tokens, |x: i64| JsonView::Int(x)),
            ));
        }
        let ghost base4 = json_field_views(fields@);
        match &self.top_p {
            Some(t) => {
                let v = JsonValue::Num(t.as_text().to_owned());
                let kv = ("top_p".to_owned(), v);
                proof {
                    lemma_field_views_push(fields@, kv.0, kv.1);
                }
                fields.push(kv);
            },
            None => (),
        }
        proof {
            assert(json_field_views(fields@) =~= base4 + opt_field(
                "top_p"@,
                map_opt(self@.top_p, |x: Seq<char>| JsonView::Num(x)),
            ));
        }
        proof {
            assert(json_field_views(fields@) =~= json_field_views(old(fields)@)
                + spec_opt_fields_a(self@));
        }
    }

    /// The second half of the optional wire fields.
    #[verifier::rlimit(100)]
    fn push_optional_fields_b(&self, fields: &mut Vec<(String, JsonValue)>)
        ensures
            json_field_views(final(fields)@) == json_field_views(old(fields)@)
                + spec_opt_fields_b(self@),
    {
        let ghost base5 = json_field_views(fields@);
        match &self.frequency_penalty {
            Some(t) => {
                let v = JsonValue::Num(t.as_text().to_owned());
                let kv = ("frequency_penalty".to_owned(), v);
                proof {
                    lemma_field_views_push(fields@, kv.0, kv.1);
                }
                fields.push(kv);
            },
            None => (),
        }
        proof {
            assert(json_field_views(fields@) =~= base5 + opt_field(
                "frequency_penalty"@,
                map_opt(self@.frequency_penalty, |x: Seq<char>| JsonView::Num(x)),
            ));
        }
        let ghost base6 = json_field_views(fields@);
        match &self.presence_penalty {
            Some(t) => {
                let v = JsonValue::Num(t.as_text().to_owned());
                let kv = ("presence_penalty".to_owned(), v);
                proof {
                    lemma_field_views_push(fields@, kv.0, kv.1);
                }
                fields.push(kv);
            },
            None => (),
        }
        proof {
            assert(json_field_views(fields@) =~= base6 + opt_field(
                "presence_penalty"@,
                map_opt(self@.presence_penalty, |x: Seq<char>| JsonView::Num(x)),
            ));
        }
        let ghost base7 = json_field_views(fields@);
        match &self.logprobs {
            Some(b) => {
                let kv = ("logprobs".to_owned(), JsonValue::Bool(*b));
                proof {
                    lemma_field_views_push(fields@, kv.0, kv.1);
                }
                fields.push(kv);
            },
            None => (),
        }
        proof {
            assert(json_field_views(fields@) =~= base7 + opt_field(
                "logprobs"@,
                map_opt(self@.logprobs, |x: bool| JsonView::Bool(x)),
            ));
        }
        let ghost base8 = json_field_views(fields@);
        match &self.top_logprobs {
            Some(v) => {
                let kv = ("top_logprobs".to_owned(), JsonValue::Int(*v));
                proof {
                    lemma_field_views_push(fields@, kv.0, kv.1);
                }
                fields.push(kv);
            },
            None => (),
        }
        proof {
            assert(json_field_views(fields@) =~= base8 + opt_field(
                "top_logprobs"@,
                map_opt(self@.top_logprobs, |x: i64| JsonView::Int(x)),
            ));
        }
        let ghost base9 = json_field_views(fields@);
        match &self.response_format {
            Some(f) => {
                let v = match f {
                    ResponseFormat::JsonObject => JsonValue::Str("json_object".to_owned()),
                    ResponseFormat::Text => JsonValue::Str("text".to_owned()),
                };
                let kv = ("response_format".to_owned(), v);
                proof {
                    lemma_field_views_push(fields@, kv.0, kv.1);
                }
                fields.push(kv);
            },
            None => (),
        }
        proof {
            assert(json_field_views(fields@) =~= base9 + opt_field(
                "response_format"@,
                map_opt(self@.response_format, |x: ResponseFormat| JsonView::Str(format_text(x))),
            ));
        }
    }

    /// The request's wire object, read back. Together with
    /// [`lemma_request_round_trip`] this closes the loop: serializing and
    /// deserializing reproduces the request field for field.
    pub fn from_json(v: &JsonValue) -> (r: Option<Request>)
        ensures
            match r {
                Some(req) => spec_request_from(v@) == Some(req@),
                None => spec_request_from(v@) is None,
            },
    {
        request_from_json(v)
    }

    /// The request's wire text.
    pub fn wire_json(&self) -> (r: String)
        ensures
            r@ == crate::text_api::json::spec_json_text(spec_request_json(self@)),
    {
        let v = self.to_json();
        crate::text_api::json::write_json(&v)
    }
}

// ---------------------------------------------------------------------------
// Reading the wire object back
// ---------------------------------------------------------------------------
/// Field lookup distributes over concatenation: the left fields win.
pub broadcast proof fn lemma_obj_get_concat(
    a: Seq<(Seq<char>, JsonView)>,
    b: Seq<(Seq<char>, JsonView)>,
    k: Seq<char>,
)
    ensures
        #[trigger] spec_obj_get(a + b, k) == (match spec_obj_get(a, k) {
            Some(v) => Some(v),
            None => spec_obj_get(b, k),
        }),
    decreases a.len(),
{
    if a.len() == 0 {
        assert(a + b =~= b);
    } else {
        lemma_obj_get_concat(a.drop_first(), b, k);
        assert((a + b)[0] == a[0]);
        assert((a + b).drop_first() =~= a.drop_first() + b);
    }
}

/// Field lookup in a single optional field.
pub broadcast proof fn lemma_obj_get_opt_field(name: Seq<char>, o: Option<JsonView>, k: Seq<char>)
    ensures
        #[trigger] spec_obj_get(opt_field(name, o), k) == (match o {
            None => None,
            Some(v) => if name == k {
                Some(v)
            } else {
                None
            },
        }),
{
    reveal_with_fuel(spec_obj_get, 3);
    match o {
        None => {
            assert(opt_field(name, o) =~= Seq::<(Seq<char>, JsonView)>::empty());
            assert(spec_obj_get(opt_field(name, o), k) is None);
        },
        Some(v) => {
            assert(opt_field(name, o).len() == 1);
            if name != k {
                assert(opt_field(name, o).drop_first() =~= Seq::<(Seq<char>, JsonView)>::empty());
                assert(spec_obj_get(opt_field(name, o), k) == spec_obj_get(
                    opt_field(name, o).drop_first(),
                    k,
                ));
            }
        },
    }
}

/// An optional boolean wire field.
pub open spec fn spec_opt_bool_field(o: Option<JsonView>) -> Option<Option<bool>> {
    match o {
        None => Some(None),
        Some(JsonView::Bool(b)) => Some(Some(b)),
        _ => None,
    }
}

/// An optional number wire field, required to satisfy the strict grammar.
pub open spec fn spec_opt_num_field(o: Option<JsonView>) -> Option<Option<Seq<char>>> {
    match o {
        None => Some(None),
        Some(JsonView::Num(t)) => if is_number_lit(t) {
            Some(Some(t))
        } else {
            None
        },
        _ => None,
    }
}

/// An optional integer wire field.
pub open spec fn spec_opt_int_field(o: Option<JsonView>) -> Option<Option<i64>> {
    match o {
        None => Some(None),
        Some(j) => match crate::text_api::response::spec_as_int(j) {
            Some(i) => Some(Some(i)),
            None => None,
        },
    }
}

/// An optional response-format wire field.
pub open spec fn spec_opt_format_field(o: Option<JsonView>) -> Option<Option<ResponseFormat>> {
    match o {
        None => Some(None),
        Some(JsonView::Str(t)) => if t == "json_object"@ {
            Some(Some(ResponseFormat::JsonObject))
        } else if t == "text"@ {
            Some(Some(ResponseFormat::Text))
        } else {
            None
        },
        _ => None,
    }
}

/// One wire message read back: `role` and `content` are required strings, the
/// role spelling mapped as the compiler maps it.
pub open spec fn spec_message_from(j: JsonView) -> Option<MessageView> {
    match j {
        JsonView::Obj(fields) => {
            let role = match spec_obj_get(fields, "role"@) {
                Some(JsonView::Str(t)) => Some(role_of_text(t)),
                _ => None,
            };
            let content = match spec_obj_get(fields, "content"@) {
                Some(JsonView::Str(t)) => Some(t),
                _ => None,
            };
            match (role, content) {
                (Some(ro), Some(c)) => Some(MessageView { role: ro, content: c }),
                _ => None,
            }
        },
        _ => None,
    }
}

pub open spec fn spec_messages_from(items: Seq<JsonView>, i: int) -> Option<Seq<MessageView>>
    decreases items.len() - i,
{
    if i < 0 {
        None
    } else if i >= items.len() {
        Some(Seq::empty())
    } else {
        match spec_message_from(items[i]) {
            None => None,
            Some(m) => match spec_messages_from(items, i + 1) {
                None => None,
                Some(r) => Some(seq![m] + r),
            },
        }
    }
}

/// The request carried by one wire object: `model` and `messages` required,
/// each optional field present with its one wire shape or absent.
pub open spec fn spec_request_from(j: JsonView) -> Option<RequestView> {
    match j {
        JsonView::Obj(fields) => {
            let model = match spec_obj_get(fields, "model"@) {
                Some(JsonView::Str(t)) => Some(t),
                _ => None,
            };
            let messages = match spec_obj_get(fields, "messages"@) {
                Some(JsonView::Arr(items)) => spec_messages_from(items, 0),
                _ => None,
            };
            let stream = spec_opt_bool_field(spec_obj_get(fields, "stream"@));
            let temperature = spec_opt_num_field(spec_obj_get(fields, "temperature"@));
            let n = spec_opt_int_field(spec_obj_get(fields, "n"@));
            let max_tokens = spec_opt_int_field(spec_obj_get(fields, "max_tokens"@));
            let top_p = spec_opt_num_field(spec_obj_get(fields, "top_p"@));
            let frequency_penalty = spec_opt_num_field(
                spec_obj_get(fields, "frequency_penalty"@),
            );
            let presence_penalty = spec_opt_num_field(spec_obj_get(fields, "presence_penalty"@));
            let logprobs = spec_opt_bool_field(spec_obj_get(fields, "logprobs"@));
            let top_logprobs = spec_opt_int_field(spec_obj_get(fields, "top_logprobs"@));
            let response_format = spec_opt_format_field(spec_obj_get(fields, "response_format"@));
            match (model, messages) {
                (Some(mo), Some(ms)) => match (stream, temperature, n, max_tokens, top_p) {
                    (Some(st), Some(te), Some(nn), Some(mt), Some(tp)) => match (
                        frequency_penalty,
                        presence_penalty,
                        logprobs,
                        top_logprobs,
                        response_format,
                    ) {
                        (Some(fp), Some(pp), Some(lp), Some(tl), Some(rf)) => Some(
                            RequestView {
                                model: mo,
                                messages: ms,
                                stream: st,
                                temperature: te,
                                n: nn,
                                max_tokens: mt,
                                top_p: tp,
                                frequency_penalty: fp,
                                presence_penalty: pp,
                                logprobs: lp,
                                top_logprobs: tl,
                                response_format: rf,
                            },
                        ),
                        _ => None,
                    },
                    _ => None,
                },
                _ => None,
            }
        },
        _ => None,
    }
}

/// One wire message read back, executable form.
fn message_from_json(j: &JsonValue) -> (r: Option<Message>)
    ensures
        match r {
            Some(m) => spec_message_from(j@) == Some(m@),
            None => spec_message_from(j@) is None,
        },
{
    match j {
        JsonValue::Obj(fields) => {
            let role: Role = match crate::text_api::json::obj_get(fields, "role") {
                Some(JsonValue::Str(t)) => {
                    let chars = str_to_chars(t.as_str());
                    let system_lit = str_to_chars("system");
                    let assistant_lit = str_to_chars("assistant");
                    if crate::text_api::common::eq_chars(&chars, &system_lit) {
                        Role::System
                    } else if crate::text_api::common::eq_chars(&chars, &assistant_lit) {
                        Role::Assistant
                    } else {
                        Role::User
                    }
                },
                _ => {
                    return None;
                },
            };
            let content: String = match crate::text_api::json::obj_get(fields, "content") {
                Some(JsonValue::Str(t)) => t.clone(),
                _ => {
                    return None;
                },
            };
            Some(Message { role, content })
        },
        _ => None,
    }
}

fn messages_from_json(items: &Vec<JsonValue>, i: usize) -> (r: Option<Vec<Message>>)
    requires
        i <= items@.len(),
    ensures
        match r {
            Some(v) => spec_messages_from(json_views(items@), i as int) == Some(
                v@.map_values(|m: Message| m@),
            ),
            None => spec_messages_from(json_views(items@), i as int) is None,
        },
    decreases items@.len() - i,
{
    proof {
        crate::text_api::json::lemma_json_views_len(items@);
    }
    if i >= items.len() {
        let r: Vec<Message> = Vec::new();
        proof {
            assert(r@.map_values(|m: Message| m@) =~= Seq::<MessageView>::empty());
        }
        return Some(r);
    }
    proof {
        lemma_json_views_index(items@, i as int);
    }
    let head = match message_from_json(&items[i]) {
        None => {
            return None;
        },
        Some(m) => m,
    };
    let mut rest = match messages_from_json(items, i + 1) {
        None => {
            return None;
        },
        Some(v) => v,
    };
    let ghost head_view = head@;
    let ghost rest_snap = rest@;
    let mut out: Vec<Message> = Vec::new();
    out.push(head);
    out.append(&mut rest);
    proof {
        let f = |m: Message| m@;
        assert forall|k: int| 0 <= k < out@.len() implies out@.map_values(f)[k] == (seq![head_view]
            + rest_snap.map_values(f))[k] by {
            if k > 0 {
                assert(out@[k] == rest_snap[k - 1]);
            }
        }
        assert(out@.map_values(f) =~= seq![head_view] + rest_snap.map_values(f));
    }
    Some(out)
}

/// The wire object read back into a request, executable form.
fn request_from_json(v: &JsonValue) -> (r: Option<Request>)
    ensures
        match r {
            Some(req) => spec_request_from(v@) == Some(req@),
            None => spec_request_from(v@) is None,
        },
{
    match v {
        JsonValue::Obj(fields) => {
            let model: String = match crate::text_api::json::obj_get(fields, "model") {
                Some(JsonValue::Str(t)) => t.clone(),
                _ => {
                    return None;
                },
            };
            let messages: Vec<Message> = match crate::text_api::json::obj_get(fields, "messages") {
                Some(JsonValue::Arr(items)) => match messages_from_json(items, 0) {
                    Some(ms) => ms,
                    None => {
                        return None;
                    },
                },
                _ => {
                    return None;
                },
            };
            let stream: Option<bool> = match crate::text_api::json::obj_get(fields, "stream") {
                None => None,
                Some(JsonValue::Bool(b)) => Some(*b),
                _ => {
                    return None;
                },
            };
            let temperature: Option<Number> = match crate::text_api::json::obj_get(
                fields,
                "temperature",
            ) {
                None => None,
                Some(JsonValue::Num(t)) => {
                    let chars = str_to_chars(t.as_str());
                    match Number::from_chars(&chars) {
                        Some(x) => Some(x),
                        None => {
                            return None;
                        },
                    }
                },
                _ => {
                    return None;
                },
            };
            let n: Option<i64> = match crate::text_api::json::obj_get(fields, "n") {
                None => None,
                Some(x) => match crate::text_api::response::as_int(x) {
                    Some(i) => Some(i),
                    None => {
                        return None;
                    },
                },
            };
            let max_tokens: Option<i64> = match crate::text_api::json::obj_get(
                fields,
                "max_tokens",
            ) {
                None => None,
                Some(x) => match crate::text_api::response::as_int(x) {
                    Some(i) => Some(i),
                    None => {
                        return None;
                    },
                },
            };
            let top_p: Option<Number> = match crate::text_api::json::obj_get(fields, "top_p") {
                None => None,
                Some(JsonValue::Num(t)) => {
                    let chars = str_to_chars(t.as_str());
                    match Number::from_chars(&chars) {
                        Some(x) => Some(x),
                        None => {
                            return None;
                        },
                    }
                },
                _ => {
                    return None;
                },
            };
            let frequency_penalty: Option<Number> = match crate::text_api::json::obj_get(
                fields,
                "frequency_penalty",
            ) {
                None => None,
                Some(JsonValue::Num(t)) => {
                    let chars = str_to_chars(t.as_str());
                    match Number::from_chars(&chars) {
                        Some(x) => Some(x),
                        None => {
                            return None;
                        },
                    }
                },
                _ => {
                    return None;
                },
            };
            let presence_penalty: Option<Number> = match crate::text_api::json::obj_get(
                fields,
                "presence_penalty",
            ) {
                None => None,
                Some(JsonValue::Num(t)) => {
                    let chars = str_to_chars(t.as_str());
                    match Number::from_chars(&chars) {
                        Some(x) => Some(x),
                        None => {
                            return None;
                        },
                    }
                },
                _ => {
                    return None;
                },
            };
            let logprobs: Option<bool> = match crate::text_api::json::obj_get(fields, "logprobs") {
                None => None,
                Some(JsonValue::Bool(b)) => Some(*b),
                _ => {
                    return None;
                },
            };
            let top_logprobs: Option<i64> = match crate::text_api::json::obj_get(
                fields,
                "top_logprobs",
            ) {
                None => None,
                Some(x) => match crate::text_api::response::as_int(x) {
                    Some(i) => Some(i),
                    None => {
                        return None;
                    },
                },
            };
            let response_format: Option<ResponseFormat> = match crate::text_api::json::obj_get(
                fields,
                "response_format",
            ) {
                None => None,
                Some(JsonValue::Str(t)) => {
                    let chars = str_to_chars(t.as_str());
                    let json_object_lit = str_to_chars("json_object");
                    let text_lit = str_to_chars("text");
                    if crate::text_api::common::eq_chars(&chars, &json_object_lit) {
                        Some(ResponseFormat::JsonObject)
                    } else if crate::text_api::common::eq_chars(&chars, &text_lit) {
                        Some(ResponseFormat::Text)
                    } else {
                        return None;
                    }
                },
                _ => {
                    return None;
                },
            };
            Some(
                Request {
                    model,
                    messages,
                    stream,
                    temperature,
                    n,
                    max_tokens,
                    top_p,
                    frequency_penalty,
                    presence_penalty,
                    logprobs,
                    top_logprobs,
                    response_format,
                },
            )
        },
        _ => None,
    }
}

/// One message round-trips: reading back its wire object reproduces it.
pub proof fn lemma_message_round_trip(m: MessageView)
    ensures
        spec_message_from(spec_message_json(m)) == Some(m),
{
    reveal_with_fuel(spec_obj_get, 3);
    reveal_strlit("role");
    reveal_strlit("content");
    reveal_strlit("system");
    reveal_strlit("user");
    reveal_strlit("assistant");
    let fields = spec_message_json(m)->Obj_0;
    assert(fields.drop_first() =~= seq![("content"@, JsonView::Str(m.content))]);
    assert("role"@.len() == 4);
    assert("content"@.len() == 7);
    assert("user"@.len() == 4);
    assert("system"@.len() == 6);
    assert("assistant"@.len() == 9);
    assert("role"@ != "content"@);
    assert("user"@ != "system"@ && "user"@ != "assistant"@ && "system"@ != "assistant"@);
}

/// A list of message wire objects round-trips, element for element.
pub proof fn lemma_messages_round_trip(items: Seq<JsonView>, ms: Seq<MessageView>, i: int)
    requires
        0 <= i <= ms.len(),
        items.len() == ms.len(),
        forall|k: int| 0 <= k < ms.len() ==> items[k] == spec_message_json(ms[k]),
    ensures
        spec_messages_from(items, i) == Some(ms.skip(i)),
    decreases ms.len() - i,
{
    if i < ms.len() {
        lemma_message_round_trip(ms[i]);
        lemma_messages_round_trip(items, ms, i + 1);
        assert(seq![ms[i]] + ms.skip(i + 1) =~= ms.skip(i));
    } else {
        assert(ms.skip(i) =~= Seq::<MessageView>::empty());
    }
}

/// The round trip: a well-formed request, serialized to its wire object and
/// read back, is reproduced field for field, whichever optional fields are
/// populated.
/// The wire lookups of the identity and message fields.
#[verifier::rlimit(100)]
proof fn lemma_request_lookups_a(r: RequestView)
    ensures
        spec_obj_get(spec_request_fields(r), "model"@) == Some(JsonView::Str(r.model)),
        spec_obj_get(spec_request_fields(r), "messages"@) == Some(spec_request_fields(r)[1].1),
        spec_request_fields(r)[1].1 is Arr,
        spec_request_fields(r)[1].1->Arr_0.len() == r.messages.len(),
        forall|k: int|
            0 <= k < r.messages.len() ==> spec_request_fields(r)[1].1->Arr_0[k]
                == spec_message_json(r.messages[k]),
        spec_obj_get(spec_request_fields(r), "stream"@) == (match r.stream {
            None => None::<JsonView>,
            Some(b) => Some(JsonView::Bool(b)),
        }),
        spec_obj_get(spec_request_fields(r), "temperature"@) == (match r.temperature {
            None => None::<JsonView>,
            Some(t) => Some(JsonView::Num(t)),
        }),
        spec_obj_get(spec_request_fields(r), "n"@) == (match r.n {
            None => None::<JsonView>,
            Some(v) => Some(JsonView::Int(v)),
        }),
{
    broadcast use lemma_obj_get_concat, lemma_obj_get_opt_field;

    reveal_with_fuel(spec_obj_get, 4);
    reveal_strlit("model");
    reveal_strlit("messages");
    reveal_strlit("stream");
    reveal_strlit("temperature");
    reveal_strlit("n");
    reveal_strlit("max_tokens");
    reveal_strlit("top_p");
    reveal_strlit("frequency_penalty");
    reveal_strlit("presence_penalty");
    reveal_strlit("logprobs");
    reveal_strlit("top_logprobs");
    reveal_strlit("response_format");
    assert("model"@.len() == 5);
    assert("messages"@.len() == 8);
    assert("stream"@.len() == 6);
    assert("temperature"@.len() == 11);
    assert("n"@.len() == 1);
    assert("max_tokens"@.len() == 10);
    assert("top_p"@.len() == 5);
    assert("frequency_penalty"@.len() == 17);
    assert("presence_penalty"@.len() == 16);
    assert("logprobs"@.len() == 8);
    assert("top_logprobs"@.len() == 12);
    assert("response_format"@.len() == 15);
    assert(("model"@)[0] != ("top_p"@)[0]);
    assert(("messages"@)[0] != ("logprobs"@)[0]);
    assert("model"@ != "top_p"@);
    assert("messages"@ != "logprobs"@);
}

/// The wire lookups of the remaining optional fields.
#[verifier::rlimit(100)]
proof fn lemma_request_lookups_b(r: RequestView)
    ensures
        spec_obj_get(spec_request_fields(r), "max_tokens"@) == (match r.max_tokens {
            None => None::<JsonView>,
            Some(v) => Some(JsonView::Int(v)),
        }),
        spec_obj_get(spec_request_fields(r), "top_p"@) == (match r.top_p {
            None => None::<JsonView>,
            Some(t) => Some(JsonView::Num(t)),
        }),
        spec_obj_get(spec_request_fields(r), "frequency_penalty"@) == (match r.frequency_penalty {
            None => None::<JsonView>,
            Some(t) => Some(JsonView::Num(t)),
        }),
        spec_obj_get(spec_request_fields(r), "presence_penalty"@) == (match r.presence_penalty {
            None => None::<JsonView>,
            Some(t) => Some(JsonView::Num(t)),
        }),
        spec_obj_get(spec_request_fields(r), "logprobs"@) == (match r.logprobs {
            None => None::<JsonView>,
            Some(b) => Some(JsonView::Bool(b)),
        }),
        spec_obj_get(spec_request_fields(r), "top_logprobs"@) == (match r.top_logprobs {
            None => None::<JsonView>,
            Some(v) => Some(JsonView::Int(v)),
        }),
        spec_obj_get(spec_request_fields(r), "response_format"@) == (match r.response_format {
            None => None::<JsonView>,
            Some(f) => Some(JsonView::Str(format_text(f))),
        }),
{
    broadcast use lemma_obj_get_concat, lemma_obj_get_opt_field;

    reveal_with_fuel(spec_obj_get, 4);
    reveal_strlit("model");
    reveal_strlit("messages");
    reveal_strlit("stream");
    reveal_strlit("temperature");
    reveal_strlit("n");
    reveal_strlit("max_tokens");
    reveal_strlit("top_p");
    reveal_strlit("frequency_penalty");
    reveal_strlit("presence_penalty");
    reveal_strlit("logprobs");
    reveal_strlit("top_logprobs");
    reveal_strlit("response_format");
    assert("model"@.len() == 5);
    assert("messages"@.len() == 8);
    assert("stream"@.len() == 6);
    assert("temperature"@.len() == 11);
    assert("n"@.len() == 1);
    assert("max_tokens"@.len() == 10);
    assert("top_p"@.len() == 5);
    assert("frequency_penalty"@.len() == 17);
    assert("presence_penalty"@.len() == 16);
    assert("logprobs"@.len() == 8);
    assert("top_logprobs"@.len() == 12);
    assert("response_format"@.len() == 15);
    assert(("model"@)[0] != ("top_p"@)[0]);
    assert(("messages"@)[0] != ("logprobs"@)[0]);
    assert("model"@ != "top_p"@);
    assert("messages"@ != "logprobs"@);
}

/// The round trip: a well-formed request, serialized to its wire object and
/// read back, is reproduced field for field, whichever optional fields are
/// populated.
#[verifier::rlimit(100)]
#[verifier::spinoff_prover]
pub proof fn lemma_request_round_trip(r: RequestView)
    requires
        r.wf(),
    ensures
        spec_request_from(spec_request_json(r)) == Some(r),
{
    lemma_request_lookups_a(r);
    lemma_request_lookups_b(r);
    reveal_strlit("json_object");
    reveal_strlit("text");
    assert("json_object"@.len() == 11);
    assert("text"@.len() == 4);
    assert("json_object"@ != "text"@);
    let fields = spec_request_fields(r);
    let items = spec_obj_get(fields, "messages"@)->Some_0->Arr_0;
    lemma_messages_round_trip(items, r.messages, 0);
    assert(r.messages.skip(0) =~= r.messages);
}

} // verus!
