//! The request model: chat messages, the draft (builder) that the prompt
//! compiler fills, and the finalized request that the clients send.

use vstd::prelude::*;

use crate::text_api::common::{is_number_lit, Integer};

verus! {

/// Who speaks a message. Unrecognized role spellings degrade to `User`.
#[derive(Clone, Copy, Debug, PartialEq, Eq, Structural)]
pub enum Role {
    System,
    User,
    Assistant,
}

/// The enumerated response formats a prompt may ask for.
#[derive(Clone, Copy, Debug, PartialEq, Eq, Structural)]
pub enum ResponseFormat {
    JsonObject,
    Text,
}

/// A decimal number kept in its lexical form, so that it can cross the wire
/// exactly as it was written. The text always satisfies the strict number
/// grammar of [`is_number_lit`].
#[derive(Debug)]
pub struct Number {
    text: String,
}

impl Clone for Number {
    fn clone(&self) -> (r: Self)
        ensures
            r@ == self@,
    {
        proof {
            use_type_invariant(self);
        }
        Number { text: self.text.clone() }
    }
}

impl View for Number {
    type V = Seq<char>;

    closed spec fn view(&self) -> Seq<char> {
        self.text@
    }
}

impl Number {
    #[verifier::type_invariant]
    spec fn type_inv(self) -> bool {
        is_number_lit(self@)
    }

    /// Accepts exactly the strict number grammar; anything else is rejected.
    pub fn new(s: &str) -> (r: Option<Number>)
        ensures
            is_number_lit(s@) ==> (r matches Some(v) && v@ == s@),
            !is_number_lit(s@) ==> r is None,
    {
        let chars = crate::text_api::common::str_to_chars(s);
        if crate::text_api::common::is_number_chars(&chars) {
            Some(Number { text: s.to_owned() })
        } else {
            None
        }
    }

    /// Accepts exactly the strict number grammar, from a character buffer.
    pub fn from_chars(v: &Vec<char>) -> (r: Option<Number>)
        ensures
            is_number_lit(v@) ==> (r matches Some(n) && n@ == v@),
            !is_number_lit(v@) ==> r is None,
    {
        if crate::text_api::common::is_number_chars(v) {
            Some(Number { text: crate::text_api::common::chars_to_string(v) })
        } else {
            None
        }
    }

    /// The lexical form the number was built from.
    pub fn as_text(&self) -> (r: &str)
        ensures
            r@ == self@,
    {
        self.text.as_str()
    }

    /// Every number that exists satisfies the grammar: the constructor is the
    /// only way to make one.
    pub fn wf(&self) -> (r: bool)
        ensures
            r,
            is_number_lit(self@),
    {
        proof {
            use_type_invariant(self);
        }
        true
    }
}

/// One chat message of a request.
#[derive(Debug)]
pub struct Message {
    pub role: Role,
    pub content: String,
}

impl Clone for Message {
    fn clone(&self) -> (r: Self)
        ensures
            r@ == self@,
    {
        Message { role: self.role, content: self.content.clone() }
    }
}

/// An element-by-element copy of a message list, with the views preserved.
pub fn clone_messages(v: &Vec<Message>) -> (r: Vec<Message>)
    ensures
        r@.map_values(|m: Message| m@) == v@.map_values(|m: Message| m@),
{
    let mut r: Vec<Message> = Vec::new();
    let mut i: usize = 0;
    while i < v.len()
        invariant
            0 <= i <= v@.len(),
            r@.len() == i,
            forall|k: int| 0 <= k < i ==> r@[k]@ == v@[k]@,
        decreases v@.len() - i,
    {
        r.push(v[i].clone());
        i = i + 1;
    }
    proof {
        assert(r@.map_values(|m: Message| m@) =~= v@.map_values(|m: Message| m@));
    }
    r
}

/// The mathematical value of a [`Message`].
pub struct MessageView {
    pub role: Role,
    pub content: Seq<char>,
}

impl View for Message {
    type V = MessageView;

    open spec fn view(&self) -> MessageView {
        MessageView { role: self.role, content: self.content@ }
    }
}

impl Message {
    pub fn system(content: String) -> (r: Message)
        ensures
            r@ == (MessageView { role: Role::System, content: content@ }),
    {
        Message { role: Role::System, content }
    }

    pub fn user(content: String) -> (r: Message)
        ensures
            r@ == (MessageView { role: Role::User, content: content@ }),
    {
        Message { role: Role::User, content }
    }

    pub fn assistant(content: String) -> (r: Message)
        ensures
            r@ == (MessageView { role: Role::Assistant, content: content@ }),
    {
        Message { role: Role::Assistant, content }
    }
}

/// A draft request: every field optional, filled by the prompt compiler or by
/// the `with_*` builders, then finalized by [`RequestBuilder::build`].
#[derive(Debug)]
pub struct RequestBuilder {
    pub model: Option<String>,
    pub stream: Option<bool>,
    pub temperature: Option<Number>,
    pub n: Option<Integer>,
    pub max_tokens: Option<Integer>,
    pub top_p: Option<Number>,
    pub frequency_penalty: Option<Number>,
    pub presence_penalty: Option<Number>,
    pub logprobs: Option<bool>,
    pub top_logprobs: Option<Integer>,
    pub response_format: Option<ResponseFormat>,
    pub messages: Vec<Message>,
}

/// The mathematical value of a [`RequestBuilder`].
pub struct RequestBuilderView {
    pub model: Option<Seq<char>>,
    pub stream: Option<bool>,
    pub temperature: Option<Seq<char>>,
    pub n: Option<Integer>,
    pub max_tokens: Option<Integer>,
    pub top_p: Option<Seq<char>>,
    pub frequency_penalty: Option<Seq<char>>,
    pub presence_penalty: Option<Seq<char>>,
    pub logprobs: Option<bool>,
    pub top_logprobs: Option<Integer>,
    pub response_format: Option<ResponseFormat>,
    pub messages: Seq<MessageView>,
}

pub open spec fn view_of_opt_string(o: Option<String>) -> Option<Seq<char>> {
    match o {
        Some(s) => Some(s@),
        None => None,
    }
}

pub open spec fn view_of_opt_number(o: Option<Number>) -> Option<Seq<char>> {
    match o {
        Some(n) => Some(n@),
        None => None,
    }
}

impl View for RequestBuilder {
    type V = RequestBuilderView;

    open spec fn view(&self) -> RequestBuilderView {
        RequestBuilderView {
            model: view_of_opt_string(self.model),
            stream: self.stream,
            temperature: view_of_opt_number(self.temperature),
            n: self.n,
            max_tokens: self.max_tokens,
            top_p: view_of_opt_number(self.top_p),
            frequency_penalty: view_of_opt_number(self.frequency_penalty),
            presence_penalty: view_of_opt_number(self.presence_penalty),
            logprobs: self.logprobs,
            top_logprobs: self.top_logprobs,
            response_format: self.response_format,
            messages: self.messages@.map_values(|m: Message| m@),
        }
    }
}

impl RequestBuilderView {
    /// The draft with nothing set.
    pub open spec fn empty() -> RequestBuilderView {
        RequestBuilderView {
            model: None,
            stream: None,
            temperature: None,
            n: None,
            max_tokens: None,
            top_p: None,
            frequency_penalty: None,
            presence_penalty: None,
            logprobs: None,
            top_logprobs: None,
            response_format: None,
            messages: Seq::empty(),
        }
    }
}

impl Default for RequestBuilder {
    fn default() -> (r: RequestBuilder)
        ensures
            r@ == RequestBuilderView::empty(),
    {
        let r = RequestBuilder {
            model: None,
            stream: None,
            temperature: None,
            n: None,
            max_tokens: None,
            top_p: None,
            frequency_penalty: None,
            presence_penalty: None,
            logprobs: None,
            top_logprobs: None,
            response_format: None,
            messages: Vec::new(),
        };
        proof {
            assert(r@.messages =~= Seq::<MessageView>::empty());
        }
        r
    }
}

pub fn clone_opt_string(o: &Option<String>) -> (r: Option<String>)
    ensures
        view_of_opt_string(r) == view_of_opt_string(*o),
{
    match o {
        Some(s) => Some(s.clone()),
        None => None,
    }
}

pub fn clone_opt_number(o: &Option<Number>) -> (r: Option<Number>)
    ensures
        view_of_opt_number(r) == view_of_opt_number(*o),
{
    match o {
        Some(n) => Some(n.clone()),
        None => None,
    }
}

impl Clone for RequestBuilder {
    fn clone(&self) -> (r: Self)
        ensures
            r@ == self@,
    {
        RequestBuilder {
            model: clone_opt_string(&self.model),
            stream: self.stream,
            temperature: clone_opt_number(&self.temperature),
            n: self.n,
            max_tokens: self.max_tokens,
            top_p: clone_opt_number(&self.top_p),
            frequency_penalty: clone_opt_number(&self.frequency_penalty),
            presence_penalty: clone_opt_number(&self.presence_penalty),
            logprobs: self.logprobs,
            top_logprobs: self.top_logprobs,
            response_format: self.response_format,
            messages: clone_messages(&self.messages),
        }
    }
}

impl RequestBuilder {
    pub fn with_model(self, model: String) -> (r: RequestBuilder)
        ensures
            r@ == (RequestBuilderView { model: Some(model@), ..self@ }),
    {
        RequestBuilder { model: Some(model), ..self }
    }

    pub fn with_stream(self, stream: bool) -> (r: RequestBuilder)
        ensures
            r@ == (RequestBuilderView { stream: Some(stream), ..self@ }),
    {
        RequestBuilder { stream: Some(stream), ..self }
    }

    pub fn with_messages(self, messages: Vec<Message>) -> (r: RequestBuilder)
        ensures
            r@ == (RequestBuilderView {
                messages: messages@.map_values(|m: Message| m@),
                ..self@
            }),
    {
        RequestBuilder { messages, ..self }
    }
}

/// Finalization failure: a required field of the draft is absent.
#[derive(Clone, Copy, Debug, PartialEq, Eq, Structural)]
pub enum ConfigurationIncomplete {
    MissingModel,
    MissingMessages,
}

/// A finalized, immutable request. The model and at least one message are
/// required; everything else is optional and omitted from the wire when unset.
#[derive(Clone, Debug)]
pub struct Request {
    pub model: String,
    pub messages: Vec<Message>,
    pub stream: Option<bool>,
    pub temperature: Option<Number>,
    pub n: Option<Integer>,
    pub max_tokens: Option<Integer>,
    pub top_p: Option<Number>,
    pub frequency_penalty: Option<Number>,
    pub presence_penalty: Option<Number>,
    pub logprobs: Option<bool>,
    pub top_logprobs: Option<Integer>,
    pub response_format: Option<ResponseFormat>,
}

/// The mathematical value of a [`Request`].
pub struct RequestView {
    pub model: Seq<char>,
    pub messages: Seq<MessageView>,
    pub stream: Option<bool>,
    pub temperature: Option<Seq<char>>,
    pub n: Option<Integer>,
    pub max_tokens: Option<Integer>,
    pub top_p: Option<Seq<char>>,
    pub frequency_penalty: Option<Seq<char>>,
    pub presence_penalty: Option<Seq<char>>,
    pub logprobs: Option<bool>,
    pub top_logprobs: Option<Integer>,
    pub response_format: Option<ResponseFormat>,
}

impl View for Request {
    type V = RequestView;

    open spec fn view(&self) -> RequestView {
        RequestView {
            model: self.model@,
            messages: self.messages@.map_values(|m: Message| m@),
            stream: self.stream,
            temperature: view_of_opt_number(self.temperature),
            n: self.n,
            max_tokens: self.max_tokens,
            top_p: view_of_opt_number(self.top_p),
            frequency_penalty: view_of_opt_number(self.frequency_penalty),
            presence_penalty: view_of_opt_number(self.presence_penalty),
            logprobs: self.logprobs,
            top_logprobs: self.top_logprobs,
            response_format: self.response_format,
        }
    }
}

impl RequestView {
    /// Well-formedness: every number field holds a strict number literal. The
    /// view of every real request satisfies this, since numbers can only be
    /// built through the grammar check.
    pub open spec fn wf(self) -> bool {
        &&& (self.temperature matches Some(t) ==> is_number_lit(t))
        &&& (self.top_p matches Some(t) ==> is_number_lit(t))
        &&& (self.frequency_penalty matches Some(t) ==> is_number_lit(t))
        &&& (self.presence_penalty matches Some(t) ==> is_number_lit(t))
    }
}

/// What finalizing a draft yields when the required fields are present.
pub open spec fn spec_finalize(d: RequestBuilderView) -> RequestView {
    RequestView {
        model: d.model->Some_0,
        messages: d.messages,
        stream: d.stream,
        temperature: d.temperature,
        n: d.n,
        max_tokens: d.max_tokens,
        top_p: d.top_p,
        frequency_penalty: d.frequency_penalty,
        presence_penalty: d.presence_penalty,
        logprobs: d.logprobs,
        top_logprobs: d.top_logprobs,
        response_format: d.response_format,
    }
}

impl RequestBuilder {
    /// Validates the draft into an immutable request. The message list and the
    /// model are the required fields; each absence is its own failure.
    pub fn build(self) -> (r: Result<Request, ConfigurationIncomplete>)
        ensures
            self@.model is Some && self@.messages.len() > 0 ==> (r matches Ok(req) && req@
                == spec_finalize(self@)),
            self@.model is None ==> r == Err::<Request, _>(ConfigurationIncomplete::MissingModel),
            self@.model is Some && self@.messages.len() == 0 ==> r == Err::<Request, _>(
                ConfigurationIncomplete::MissingMessages,
            ),
    {
        let model = match self.model {
            Some(m) => m,
            None => {
                return Err(ConfigurationIncomplete::MissingModel);
            },
        };
        if self.messages.len() == 0 {
            return Err(ConfigurationIncomplete::MissingMessages);
        }
        Ok(
            Request {
                model,
                messages: self.messages,
                stream: self.stream,
                temperature: self.temperature,
                n: self.n,
                max_tokens: self.max_tokens,
                top_p: self.top_p,
                frequency_penalty: self.frequency_penalty,
                presence_penalty: self.presence_penalty,
                logprobs: self.logprobs,
                top_logprobs: self.top_logprobs,
                response_format: self.response_format,
            },
        )
    }
}

} // verus!
