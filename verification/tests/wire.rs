use promptml::text_api::json::{parse_json, write_json, JsonValue};
use promptml::text_api::request::{
    ConfigurationIncomplete, Message, Number, RequestBuilder, ResponseFormat,
};
use promptml::text_api::response::batch::parse_batch_response;

fn full_draft() -> RequestBuilder {
    let mut draft = RequestBuilder::default()
        .with_model("gpt-x".to_string())
        .with_messages(vec![
            Message::system("be brief".to_string()),
            Message::user("hi".to_string()),
        ])
        .with_stream(true);
    draft.temperature = Number::new("0.5");
    draft.n = Some(3);
    draft.max_tokens = Some(128);
    draft.top_p = Number::new("0.9");
    draft.frequency_penalty = Number::new("-0.25");
    draft.presence_penalty = Number::new("1e-2");
    draft.logprobs = Some(false);
    draft.top_logprobs = Some(2);
    draft.response_format = Some(ResponseFormat::JsonObject);
    draft
}

#[test]
fn wire_json_is_exact() {
    let req = full_draft().build().unwrap();
    let out = req.wire_json();
    let expected = "{\"model\":\"gpt-x\",\"messages\":[{\"role\":\"system\",\"content\":\"be brief\"},{\"role\":\"user\",\"content\":\"hi\"}],\"stream\":true,\"temperature\":0.5,\"n\":3,\"max_tokens\":128,\"top_p\":0.9,\"frequency_penalty\":-0.25,\"presence_penalty\":1e-2,\"logprobs\":false,\"top_logprobs\":2,\"response_format\":\"json_object\"}";
    assert_eq!(out, expected);
}

#[test]
fn unset_fields_are_omitted_entirely() {
    let draft = RequestBuilder::default()
        .with_model("m".to_string())
        .with_messages(vec![Message::user("q".to_string())]);
    let req = draft.build().unwrap();
    let out = req.wire_json();
    assert_eq!(out, "{\"model\":\"m\",\"messages\":[{\"role\":\"user\",\"content\":\"q\"}]}");
    assert!(!out.contains("null"));
}

#[test]
fn wire_json_round_trips_through_an_outside_parser() {
    let req = full_draft().build().unwrap();
    let out = req.wire_json();
    let v: serde_json::Value = serde_json::from_str(&out).unwrap();
    assert_eq!(v["model"], serde_json::Value::String("gpt-x".to_string()));
    assert_eq!(v["messages"].as_array().unwrap().len(), 2);
    assert_eq!(v["messages"][1]["content"], serde_json::Value::String("hi".to_string()));
    assert_eq!(v["stream"], serde_json::Value::Bool(true));
    assert_eq!(v["n"].as_i64(), Some(3));
    assert_eq!(v["temperature"].as_f64(), Some(0.5));
    assert_eq!(v["response_format"], serde_json::Value::String("json_object".to_string()));
}

#[test]
fn wire_json_round_trips_through_the_library_parser() {
    let req = full_draft().build().unwrap();
    let out = req.wire_json();
    let v = parse_json(&out).unwrap();
    match &v {
        JsonValue::Obj(fields) => {
            assert_eq!(fields.len(), 12);
        },
        _ => panic!("the wire request must be one object"),
    }
    // writing the reparsed value yields the same text again
    let again = write_json(&v);
    let reparsed: serde_json::Value = serde_json::from_str(&again).unwrap();
    let first: serde_json::Value = serde_json::from_str(&out).unwrap();
    assert_eq!(reparsed, first);
}

#[test]
fn string_escapes_survive_the_wire() {
    let draft = RequestBuilder::default()
        .with_model("m".to_string())
        .with_messages(vec![Message::user("a\"b\\c\nd\te\u{1}".to_string())]);
    let req = draft.build().unwrap();
    let out = req.wire_json();
    let v: serde_json::Value = serde_json::from_str(&out).unwrap();
    assert_eq!(
        v["messages"][0]["content"],
        serde_json::Value::String("a\"b\\c\nd\te\u{1}".to_string())
    );
}

#[test]
fn build_reports_the_missing_field() {
    let no_model = RequestBuilder::default().with_messages(vec![Message::user("q".to_string())]);
    assert_eq!(no_model.build().err(), Some(ConfigurationIncomplete::MissingModel));
    let no_messages = RequestBuilder::default().with_model("m".to_string());
    assert_eq!(no_messages.build().err(), Some(ConfigurationIncomplete::MissingMessages));
}

#[test]
fn number_accepts_only_the_strict_grammar() {
    assert!(Number::new("0").is_some());
    assert!(Number::new("-12.5").is_some());
    assert!(Number::new("2E+8").is_some());
    assert!(Number::new("1e-2").is_some());
    assert!(Number::new("").is_none());
    assert!(Number::new(".5").is_none());
    assert!(Number::new("1.").is_none());
    assert!(Number::new("+1").is_none());
    assert!(Number::new("1e").is_none());
    assert!(Number::new("abc").is_none());
    assert_eq!(Number::new("3.25").unwrap().as_text(), "3.25");
}

#[test]
fn batch_response_parses_whole_documents() {
    let body = "{\"id\":\"r1\",\"choices\":[{\"finish_reason\":\"stop\",\"index\":0,\"message\":{\"content\":\"hello\",\"role\":\"assistant\"},\"logprobs\":null}],\"created\":123,\"model\":\"m\",\"system_fingerprint\":\"fp\",\"object\":\"chat.completion\",\"usage\":{\"completion_tokens\":1,\"prompt_tokens\":2,\"total_tokens\":3}}";
    let resp = parse_batch_response(body).unwrap();
    assert_eq!(resp.id, "r1");
    assert_eq!(resp.created, 123);
    assert_eq!(resp.model, "m");
    assert_eq!(resp.system_fingerprint.as_deref(), Some("fp"));
    assert_eq!(resp.object, "chat.completion");
    assert_eq!(resp.usage.completion_tokens, 1);
    assert_eq!(resp.usage.prompt_tokens, 2);
    assert_eq!(resp.usage.total_tokens, 3);
    assert_eq!(resp.choices.len(), 1);
    assert_eq!(resp.choices[0].finish_reason, "stop");
    assert_eq!(resp.choices[0].message.content.as_deref(), Some("hello"));
    assert_eq!(resp.choices[0].message.role, "assistant");
}

#[test]
fn batch_response_requires_its_fields() {
    assert!(parse_batch_response("{\"id\":\"r1\"}").is_none());
    assert!(parse_batch_response("not json").is_none());
}

#[test]
fn batch_logprobs_parse_in_full() {
    let body = "{\"id\":\"r\",\"choices\":[{\"finish_reason\":\"stop\",\"index\":0,\"message\":{\"role\":\"assistant\",\"content\":\"x\"},\"logprobs\":{\"content\":[{\"token\":\"x\",\"logprob\":-0.125,\"bytes\":[120],\"top_logprobs\":[{\"token\":\"y\",\"logprob\":-2.5,\"bytes\":[121]}]}]}}],\"created\":1,\"model\":\"m\",\"object\":\"o\",\"usage\":{\"completion_tokens\":1,\"prompt_tokens\":1,\"total_tokens\":2}}";
    let resp = parse_batch_response(body).unwrap();
    let lp = resp.choices[0].logprobs.as_ref().unwrap();
    let records = lp.content.as_ref().unwrap();
    assert_eq!(records.len(), 1);
    assert_eq!(records[0].token, "x");
    assert_eq!(records[0].logprob.as_text(), "-0.125");
    assert_eq!(records[0].bytes, vec![120]);
    assert_eq!(records[0].top_logprobs[0].token, "y");
}

#[test]
fn request_round_trips_through_wire_json() {
    let req = full_draft().build().unwrap();
    let text = req.wire_json();
    let parsed = parse_json(&text).unwrap();
    let back = promptml::text_api::request::Request::from_json(&parsed).unwrap();
    assert_eq!(back.model, req.model);
    assert_eq!(back.messages.len(), req.messages.len());
    for (a, b) in back.messages.iter().zip(req.messages.iter()) {
        assert_eq!(a.role, b.role);
        assert_eq!(a.content, b.content);
    }
    assert_eq!(back.stream, req.stream);
    // an outside parser may renormalize a number's spelling; its value stays
    let numeric = |n: &Number| n.as_text().parse::<f64>().unwrap();
    assert_eq!(
        back.temperature.as_ref().map(numeric),
        req.temperature.as_ref().map(numeric)
    );
    assert_eq!(back.n, req.n);
    assert_eq!(back.max_tokens, req.max_tokens);
    assert_eq!(back.top_p.as_ref().map(numeric), req.top_p.as_ref().map(numeric));
    assert_eq!(
        back.frequency_penalty.as_ref().map(numeric),
        req.frequency_penalty.as_ref().map(numeric)
    );
    assert_eq!(
        back.presence_penalty.as_ref().map(numeric),
        req.presence_penalty.as_ref().map(numeric)
    );
    assert_eq!(back.logprobs, req.logprobs);
    assert_eq!(back.top_logprobs, req.top_logprobs);
    assert_eq!(back.response_format, req.response_format);
}

#[test]
fn minimal_request_round_trips_too() {
    let draft = RequestBuilder::default()
        .with_model("m".to_string())
        .with_messages(vec![Message::assistant("a".to_string())]);
    let req = draft.build().unwrap();
    let text = req.wire_json();
    let parsed = parse_json(&text).unwrap();
    let back = promptml::text_api::request::Request::from_json(&parsed).unwrap();
    assert_eq!(back.model, "m");
    assert!(back.stream.is_none());
    assert!(back.temperature.is_none());
    assert_eq!(back.messages[0].role, promptml::text_api::request::Role::Assistant);
}
