use promptml::text_api::client::Error;
use promptml::text_api::request::{ResponseFormat, Role};
use promptml::text_api::xml_dsl::{Prompt, PromptCollection};

fn globals() -> liquid::Object {
    let mut g = liquid::Object::new();
    g.insert("topic".into(), liquid::model::Value::scalar("dogs"));
    g
}

#[test]
fn compile_two_named_prompts_yields_both() {
    let doc = "\
<prompt name=\"first\" model=\"m1\">\n\
  <message role=\"user\">one</message>\n\
</prompt>\n\
<prompt name=\"second\" model=\"m2\">\n\
  <message role=\"system\">two</message>\n\
</prompt>\n";
    let c = PromptCollection::compile(doc);
    assert_eq!(c.len(), 2);
    let first = c.get("first").unwrap();
    assert_eq!(first.name.as_deref(), Some("first"));
    assert_eq!(first.request.model.as_deref(), Some("m1"));
    assert_eq!(first.request.messages.len(), 1);
    assert_eq!(first.request.messages[0].content, "one");
    let second = c.get("second").unwrap();
    assert_eq!(second.request.model.as_deref(), Some("m2"));
    assert_eq!(second.request.messages[0].role, Role::System);
    assert!(c.get("third").is_none());
}

#[test]
fn lookup_returns_first_match() {
    let doc = "\
<prompt name=\"dup\" model=\"a\"></prompt>\n\
<prompt name=\"dup\" model=\"b\"></prompt>\n";
    let c = PromptCollection::compile(doc);
    assert_eq!(c.len(), 2);
    let p = c.get("dup").unwrap();
    assert_eq!(p.request.model.as_deref(), Some("a"));
}

#[test]
fn empty_document_yields_empty_collection() {
    let c = PromptCollection::compile("no markup at all");
    assert_eq!(c.len(), 0);
}

#[test]
fn malformed_attribute_is_independent() {
    let doc = "<prompt temperature=\"abc\" n=\"3\"></prompt>";
    let c = PromptCollection::compile(doc);
    assert_eq!(c.len(), 1);
    let p = c.at(0);
    assert!(p.request.temperature.is_none());
    assert_eq!(p.request.n, Some(3));
}

#[test]
fn scalar_attributes_coerce_strictly() {
    let doc = "<prompt stream=\"true\" logprobs=\"nope\" top-p=\"0.9\" max-tokens=\"256\" \
               top-logprobs=\"99999999999999999999\"></prompt>";
    let c = PromptCollection::compile(doc);
    let p = c.at(0);
    assert_eq!(p.request.stream, Some(true));
    assert!(p.request.logprobs.is_none());
    assert_eq!(p.request.top_p.as_ref().map(|n| n.as_text().to_string()), Some("0.9".to_string()));
    assert_eq!(p.request.max_tokens, Some(256));
    // an integer beyond the carried type degrades to absent
    assert!(p.request.top_logprobs.is_none());
}

#[test]
fn response_format_is_case_insensitive() {
    let doc = "\
<prompt name=\"a\" response-format=\"JSON-Object\"></prompt>\n\
<prompt name=\"b\" response-format=\"json_object\"></prompt>\n\
<prompt name=\"c\" response-format=\"TEXT\"></prompt>\n\
<prompt name=\"d\" response-format=\"yaml\"></prompt>\n";
    let c = PromptCollection::compile(doc);
    assert_eq!(c.get("a").unwrap().request.response_format, Some(ResponseFormat::JsonObject));
    assert_eq!(c.get("b").unwrap().request.response_format, Some(ResponseFormat::JsonObject));
    assert_eq!(c.get("c").unwrap().request.response_format, Some(ResponseFormat::Text));
    assert_eq!(c.get("d").unwrap().request.response_format, None);
}

#[test]
fn unknown_role_compiles_to_user() {
    let doc = "\
<prompt>\n\
  <message role=\"narrator\">a</message>\n\
  <message>b</message>\n\
  <message role=\"assistant\">c</message>\n\
</prompt>\n";
    let c = PromptCollection::compile(doc);
    let p = c.at(0);
    assert_eq!(p.request.messages.len(), 3);
    assert_eq!(p.request.messages[0].role, Role::User);
    assert_eq!(p.request.messages[1].role, Role::User);
    assert_eq!(p.request.messages[2].role, Role::Assistant);
}

#[test]
fn empty_message_yields_empty_content() {
    let doc = "<prompt><message role=\"user\"></message></prompt>";
    let c = PromptCollection::compile(doc);
    let p = c.at(0);
    assert_eq!(p.request.messages.len(), 1);
    assert_eq!(p.request.messages[0].content, "");
}

#[test]
fn message_bodies_are_deindented() {
    let doc =
        "<prompt><message role=\"user\">\n      first\n        second\n          third\n</message></prompt>";
    let c = PromptCollection::compile(doc);
    let p = c.at(0);
    // trimming makes the first line flush; the shared indentation of the rest
    // is removed, preserving their relative indentation
    assert_eq!(p.request.messages[0].content, "first\nsecond\n  third");
}

#[test]
fn parse_renders_template_variables() {
    let doc = "<prompt name=\"q\"><message role=\"user\">Tell me about {{ topic }}.</message></prompt>";
    let g = globals();
    let c = PromptCollection::parse(doc, &g).unwrap();
    let p = c.get("q").unwrap();
    assert_eq!(p.request.messages[0].content, "Tell me about dogs.");
}

#[test]
fn prompt_parse_unknown_name_is_not_found() {
    let doc = "<prompt name=\"known\"></prompt>";
    let g = globals();
    let r = Prompt::parse(doc, "unknown", &g);
    match r {
        Err(Error::NotFound(nf)) => assert_eq!(nf.0, "unknown"),
        _ => panic!("expected a not-found failure"),
    }
    assert!(Prompt::parse(doc, "known", &g).is_ok());
}

#[test]
fn template_conditionals_and_loops_render() {
    let doc = "<prompt name=\"q\"><message role=\"user\">{% if topic %}yes{% endif %}{% for x in (1..3) %}{{ x }}{% endfor %}</message></prompt>";
    let g = globals();
    let c = PromptCollection::parse(doc, &g).unwrap();
    let p = c.get("q").unwrap();
    assert_eq!(p.request.messages[0].content, "yes123");
}

#[test]
fn self_closed_prompt_has_no_messages() {
    let doc = "<prompt name=\"empty\" model=\"m\" />";
    let c = PromptCollection::compile(doc);
    let p = c.get("empty").unwrap();
    assert_eq!(p.request.messages.len(), 0);
    assert_eq!(p.request.model.as_deref(), Some("m"));
}

#[test]
fn a_prompt_feeds_the_call_builder() {
    let doc = "<prompt name=\"q\" model=\"m\" stream=\"true\"><message role=\"user\">hi</message></prompt>";
    let c = promptml::text_api::xml_dsl::PromptCollection::compile(doc);
    let prompt = c.get("q").unwrap();
    let call = prompt
        .client_builder()
        .with_api_key("SECRET-REDACTED".to_string())
        .with_api_url(promptml::text_api::client::URL::mistral_ai_chat_completions())
        .with_timeout(30000)
        .build_streaming_api_call();
    assert!(call.is_some());
    let call = call.unwrap();
    assert_eq!(call.client.request_body.model, "m");
    assert_eq!(call.client.request_body.stream, Some(true));
    assert_eq!(call.client.timeout, Some(30000));

    let incomplete = promptml::text_api::client::ApiCallBuilder::default().build_batch_api_call();
    assert!(incomplete.is_none());
}

#[test]
fn single_quoted_attributes_parse() {
    let doc = "<prompt name='p' temperature='abc' n='3'></prompt>";
    let c = PromptCollection::compile(doc);
    assert_eq!(c.len(), 1);
    let p = c.get("p").unwrap();
    assert!(p.request.temperature.is_none());
    assert_eq!(p.request.n, Some(3));
}

#[test]
fn single_quoted_role_defaults_like_any_other() {
    let doc = "<prompt><message role='wizard'>hi</message></prompt>";
    let c = PromptCollection::compile(doc);
    let p = c.at(0);
    assert_eq!(p.request.messages.len(), 1);
    assert_eq!(p.request.messages[0].role, Role::User);
    assert_eq!(p.request.messages[0].content, "hi");
}

#[test]
fn unquoted_and_valueless_attributes_parse() {
    let doc = "<prompt name=bare n=3 stream=true logprobs max-tokens = 64></prompt>";
    let c = PromptCollection::compile(doc);
    assert_eq!(c.len(), 1);
    let p = c.get("bare").unwrap();
    assert_eq!(p.request.n, Some(3));
    assert_eq!(p.request.stream, Some(true));
    // a valueless attribute carries the empty value, which no boolean matches
    assert!(p.request.logprobs.is_none());
    // spaces around the equals sign are allowed
    assert_eq!(p.request.max_tokens, Some(64));
}

#[test]
fn lenient_numbers_normalize_to_the_wire_grammar() {
    let doc = "<prompt temperature=\"3.\" top-p=\".5\" frequency-penalty=\"+1e2\" presence-penalty=\"007.50\"></prompt>";
    let c = PromptCollection::compile(doc);
    let p = c.at(0);
    assert_eq!(p.request.temperature.as_ref().map(|n| n.as_text().to_string()), Some("3".to_string()));
    assert_eq!(p.request.top_p.as_ref().map(|n| n.as_text().to_string()), Some("0.5".to_string()));
    assert_eq!(
        p.request.frequency_penalty.as_ref().map(|n| n.as_text().to_string()),
        Some("1e2".to_string())
    );
    assert_eq!(
        p.request.presence_penalty.as_ref().map(|n| n.as_text().to_string()),
        Some("7.50".to_string())
    );
}

#[test]
fn nonfinite_numbers_degrade_to_unset() {
    let doc = "<prompt temperature=\"inf\" top-p=\"NaN\" frequency-penalty=\"-\"></prompt>";
    let c = PromptCollection::compile(doc);
    let p = c.at(0);
    assert!(p.request.temperature.is_none());
    assert!(p.request.top_p.is_none());
    assert!(p.request.frequency_penalty.is_none());
}
