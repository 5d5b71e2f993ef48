use promptml::text_api::client::{
    extract_chunks, ApiCallBuilder, InvalidConfiguration, ResponseChunkCollection,
    StreamingSession, URL,
};
use promptml::text_api::request::{Message, RequestBuilder};

fn streaming_request(stream: bool) -> promptml::text_api::request::Request {
    let draft = RequestBuilder::default()
        .with_model("m".to_string())
        .with_messages(vec![Message::user("hi".to_string())])
        .with_stream(stream);
    draft.build().unwrap()
}

#[test]
fn two_fragments_join_in_order() {
    let req = streaming_request(true);
    let mut session = StreamingSession::new(&req).unwrap();
    let m1 = session.push_text("data: {\"choices\":[{\"index\":0,\"delta\":{\"content\":\"Hel\"}}]}\n");
    let m2 = session.push_text("data: {\"choices\":[{\"index\":0,\"delta\":{\"content\":\"lo\"}}]}\n");
    assert_eq!(m1, vec!["Hel".to_string()]);
    assert_eq!(m2, vec!["lo".to_string()]);
    let collection = session.finish();
    assert_eq!(collection.content(0), Some("Hello".to_string()));
}

#[test]
fn noise_lines_do_not_interrupt_accumulation() {
    let req = streaming_request(true);
    let mut session = StreamingSession::new(&req).unwrap();
    session.push_text("data: {\"choices\":[{\"index\":0,\"delta\":{\"content\":\"Hel\"}}]}\n");
    session.push_text("\n: keep-alive comment\n");
    session.push_text("data: [DONE]\n");
    session.push_text("data: {\"choices\":[{\"index\":0,\"delta\":{\"content\":\"lo\"}}]}\n");
    let collection = session.finish();
    assert_eq!(collection.0.len(), 2);
    assert_eq!(collection.content(0), Some("Hello".to_string()));
}

#[test]
fn refuses_to_run_without_stream_flag() {
    let req = streaming_request(false);
    match StreamingSession::new(&req) {
        Err(InvalidConfiguration::StreamFlag { should_be, given }) => {
            assert_eq!(should_be, true);
            assert_eq!(given, false);
        },
        Ok(_) => panic!("a non-streaming request must be refused"),
    }
}

#[test]
fn batch_call_refuses_stream_flag() {
    let draft = RequestBuilder::default()
        .with_model("m".to_string())
        .with_messages(vec![Message::user("hi".to_string())])
        .with_stream(true);
    let call = ApiCallBuilder::default()
        .with_api_url(URL::open_ai_chat_completions())
        .with_api_key("SECRET-REDACTED".to_string())
        .with_request_body(draft)
        .build_batch_api_call()
        .unwrap();
    match call.precheck() {
        Err(InvalidConfiguration::StreamFlag { should_be, given }) => {
            assert_eq!(should_be, false);
            assert_eq!(given, true);
        },
        Ok(()) => panic!("a streaming request must be refused on the batch path"),
    }
}

#[test]
fn interleaved_indexes_keep_per_slot_order() {
    let req = streaming_request(true);
    let mut session = StreamingSession::new(&req).unwrap();
    session.push_text("data: {\"choices\":[{\"index\":0,\"delta\":{\"content\":\"a\"}},{\"index\":1,\"delta\":{\"content\":\"X\"}}]}\ndata: {\"choices\":[{\"index\":1,\"delta\":{\"content\":\"Y\"}}]}\ndata: {\"choices\":[{\"index\":0,\"delta\":{\"content\":\"b\"}}]}\n");
    let collection = session.finish();
    assert_eq!(collection.content(0), Some("ab".to_string()));
    assert_eq!(collection.content(1), Some("XY".to_string()));
    assert_eq!(collection.content(2), None);
}

#[test]
fn content_is_none_without_nonempty_fragments() {
    let req = streaming_request(true);
    let mut session = StreamingSession::new(&req).unwrap();
    session.push_text("data: {\"choices\":[{\"index\":0,\"delta\":{\"content\":\"\"}}]}\n");
    session.push_text("data: {\"choices\":[{\"index\":0,\"delta\":{}}]}\n");
    let collection = session.finish();
    assert_eq!(collection.0.len(), 2);
    assert_eq!(collection.content(0), None);
}

#[test]
fn malformed_chunks_are_discarded() {
    let chunks = extract_chunks("data: {\"choices\":[{\"index\":0,\"delta\":{\"content\":\"keep\"}}]}\ndata: {\"choices\":\"not an array\"}\ndata: {not json at all\ndata: {\"nochoices\":true}\n");
    assert_eq!(chunks.len(), 1);
    assert_eq!(chunks[0].choices[0].delta.content.as_deref(), Some("keep"));
}

#[test]
fn chunk_scalars_default_when_absent() {
    let chunks = extract_chunks(
        "data: {\"id\":\"c1\",\"created\":7,\"model\":\"m\",\"object\":\"chat\",\"choices\":[{\"index\":2,\"delta\":{\"role\":\"assistant\"},\"finish_reason\":\"stop\"}]}\n",
    );
    assert_eq!(chunks.len(), 1);
    assert_eq!(chunks[0].id, "c1");
    assert_eq!(chunks[0].created, 7);
    assert_eq!(chunks[0].model, "m");
    assert_eq!(chunks[0].object, "chat");
    assert_eq!(chunks[0].choices[0].index, 2);
    assert_eq!(chunks[0].choices[0].finish_reason.as_deref(), Some("stop"));
    assert_eq!(chunks[0].choices[0].delta.role.as_deref(), Some("assistant"));

    let bare = extract_chunks("data: {\"choices\":[]}");
    assert_eq!(bare.len(), 1);
    assert_eq!(bare[0].id, "");
    assert_eq!(bare[0].created, 0);
}

#[test]
fn byte_buffers_are_decoded_leniently() {
    let req = streaming_request(true);
    let mut session = StreamingSession::new(&req).unwrap();
    let mut data: Vec<u8> =
        b"data: {\"choices\":[{\"index\":0,\"delta\":{\"content\":\"ok\"}}]}\n".to_vec();
    // an invalid byte on its own line is framing noise, never fatal
    data.extend_from_slice(b"\xff\n");
    let msgs = session.push_buffer(&data);
    assert_eq!(msgs, vec!["ok".to_string()]);
    let collection = session.finish();
    assert_eq!(collection.content(0), Some("ok".to_string()));
}

#[test]
fn observer_text_spans_all_choices_of_a_chunk() {
    let chunks = extract_chunks(
        "data: {\"choices\":[{\"index\":0,\"delta\":{\"content\":\"a\"}},{\"index\":1,\"delta\":{\"content\":\"b\"}}]}\n",
    );
    assert_eq!(promptml::text_api::client::chunk_observer_text(&chunks[0]), "ab");
}

#[test]
fn collection_is_plain_data() {
    let collection = ResponseChunkCollection(Vec::new());
    assert_eq!(collection.content(0), None);
}
