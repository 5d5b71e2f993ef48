use promptml::audio_api;
use promptml::images_api;
use promptml::text_api::client::{ApiError, InvalidConfiguration, PromptNotFound};
use promptml::text_api::common::parse_bool;
use promptml::text_api::dedent::{trim_text, unindent_text};
use promptml::text_api::utils::markdown::extract_json_block;

#[test]
fn unindent_removes_the_common_indentation() {
    assert_eq!(unindent_text("first\n    a\n      b\n    c"), "first\na\n  b\nc");
}

#[test]
fn unindent_on_flush_text_is_a_no_op() {
    let flush = "first\nsecond\n  third";
    assert_eq!(unindent_text(flush), flush);
    let once = unindent_text("x\n   y");
    assert_eq!(unindent_text(&once), once);
}

#[test]
fn unindent_ignores_blank_lines_for_the_minimum() {
    assert_eq!(unindent_text("head\n\n  a\n   b"), "head\n\na\n b");
}

#[test]
fn unindent_drops_a_leading_empty_line() {
    assert_eq!(unindent_text("\n  a\n  b"), "a\nb");
}

#[test]
fn trim_strips_both_ends_only() {
    assert_eq!(trim_text("  \t\r\n a b \n\t "), "a b");
    assert_eq!(trim_text("   \n  "), "");
    assert_eq!(trim_text("solid"), "solid");
}

#[test]
fn parse_bool_is_strict() {
    assert_eq!(parse_bool("true"), Some(true));
    assert_eq!(parse_bool("false"), Some(false));
    assert_eq!(parse_bool("True"), None);
    assert_eq!(parse_bool("1"), None);
    assert_eq!(parse_bool(""), None);
}

#[test]
fn status_codes_classify_exactly() {
    assert_eq!(ApiError::from_code(400), Some(ApiError::BadRequestError));
    assert_eq!(ApiError::from_code(401), Some(ApiError::AuthenticationError));
    assert_eq!(ApiError::from_code(403), Some(ApiError::PermissionDeniedError));
    assert_eq!(ApiError::from_code(404), Some(ApiError::NotFoundError));
    assert_eq!(ApiError::from_code(409), Some(ApiError::ConflictError));
    assert_eq!(ApiError::from_code(422), Some(ApiError::UnprocessableEntityError));
    assert_eq!(ApiError::from_code(429), Some(ApiError::RateLimitError));
    assert_eq!(ApiError::from_code(200), None);
    assert_eq!(ApiError::from_code(500), None);
}

#[test]
fn json_blocks_are_extracted_from_markdown() {
    let doc = "prose\n```json\n{\"a\": 1}\n```\ntail";
    assert_eq!(extract_json_block(doc), Some("{\"a\": 1}".to_string()));
    assert_eq!(extract_json_block("no code here"), None);
    let open_ended = "```json\n{\"b\": 2}";
    assert_eq!(extract_json_block(open_ended), Some("{\"b\": 2}".to_string()));
}

#[test]
fn base64_data_decodes() {
    let b = images_api::response::B64("aGVsbG8=".to_string());
    assert_eq!(b.decode().unwrap(), b"hello".to_vec());
    let bad = images_api::response::B64("not base64!!".to_string());
    assert!(bad.decode().is_err());
}

#[test]
fn audio_builders_validate_required_fields() {
    let incomplete = audio_api::request::RequestBuilder::default()
        .with_model(audio_api::request::Model::tts_1());
    assert!(incomplete.build().is_none());
    let complete = audio_api::request::RequestBuilder::default()
        .with_model(audio_api::request::Model::tts_1_hd())
        .with_input("say this".to_string())
        .with_voice(audio_api::request::Voice::alloy())
        .with_response_format(audio_api::request::ResponseFormat::mp3());
    let req = complete.build().unwrap();
    assert_eq!(req.model.0, "tts-1-hd");
    assert_eq!(req.voice.0, "alloy");
}

#[test]
fn audio_configuration_requires_url_and_key() {
    let cfg = audio_api::client::ClientConfigurationBuilder::default()
        .with_api_url(audio_api::client::URL::openai_v1_audio_speech())
        .with_api_key(audio_api::client::ApiKey("SECRET-REDACTED".to_string()))
        .with_timeout(audio_api::client::Timeout(30000))
        .build()
        .unwrap();
    assert_eq!(cfg.api_url.0, "https://api.openai.com/v1/audio/speech");
    let missing = audio_api::client::ClientConfigurationBuilder::default().build();
    assert!(missing.is_none());
}

#[test]
fn image_builders_carry_wire_spellings() {
    let req = images_api::request::RequestBuilder::default()
        .with_prompt("a lighthouse".to_string())
        .with_model(images_api::request::Model::dall_e3())
        .with_n(1)
        .with_quality(images_api::request::Quality::hd())
        .with_response_format(images_api::request::ResponseFormat::b64_json())
        .with_size(images_api::request::Size::dall_e3_1792x1024())
        .build()
        .unwrap();
    assert_eq!(req.prompt, "a lighthouse");
    assert_eq!(req.model.as_deref(), Some("dall-e-3"));
    assert_eq!(req.n, Some(1));
    assert_eq!(req.quality.as_deref(), Some("hd"));
    assert_eq!(req.response_format.as_deref(), Some("b64_json"));
    assert_eq!(req.size.as_deref(), Some("1792x1024"));
    let missing = images_api::request::RequestBuilder::default().build();
    assert!(missing.is_none());
}

#[test]
fn voices_and_formats_spell_as_documented() {
    assert_eq!(audio_api::request::Voice::echo().0, "echo");
    assert_eq!(audio_api::request::Voice::fable().0, "fable");
    assert_eq!(audio_api::request::Voice::onyx().0, "onyx");
    assert_eq!(audio_api::request::Voice::nova().0, "nova");
    assert_eq!(audio_api::request::Voice::shimmer().0, "shimmer");
    assert_eq!(audio_api::request::ResponseFormat::opus().0, "opus");
    assert_eq!(audio_api::request::ResponseFormat::aac().0, "aac");
    assert_eq!(audio_api::request::ResponseFormat::flac().0, "flac");
    assert_eq!(audio_api::request::ResponseFormat::wav().0, "wav");
    assert_eq!(audio_api::request::ResponseFormat::pcm().0, "pcm");
    assert_eq!(images_api::request::Model::dall_e2().0, "dall-e-2");
    assert_eq!(images_api::request::Quality::standard().0, "standard");
    assert_eq!(images_api::request::ResponseFormat::url().0, "url");
    assert_eq!(images_api::request::Size::dall_e2_256x256().0, "256x256");
    assert_eq!(images_api::request::Size::dall_e2_512x512().0, "512x512");
    assert_eq!(images_api::request::Size::dall_e2_1024x1024().0, "1024x1024");
    assert_eq!(images_api::request::Size::dall_e3_1024x1792().0, "1024x1792");
    assert_eq!(images_api::client::URL::openai_v1_images_generations().0,
        "https://api.openai.com/v1/images/generations");
}

#[test]
fn fences_allow_indentation_and_info_words() {
    let doc = "intro\n  ```json extra\n{\"k\": 1}\n  ```  \noutro";
    assert_eq!(extract_json_block(doc), Some("{\"k\": 1}".to_string()));
    let other = "```rust\nlet x = 1;\n```";
    assert_eq!(extract_json_block(other), None);
}

#[test]
fn error_messages_are_fixed_texts() {
    assert_eq!(ApiError::NotFoundError.message(), "API ERROR: not found error.");
    assert_eq!(ApiError::RateLimitError.message(), "API ERROR: rate limit error.");
    let cfg = InvalidConfiguration::StreamFlag { should_be: true, given: false };
    assert_eq!(
        cfg.message(),
        "Error: Invalid Configuration! Stream flag should be 'true' given 'false'."
    );
    let nf = PromptNotFound("x".to_string());
    assert_eq!(nf.message(), "Cannot find prompt: \"x\".");
}
