use lupo_tts::config::SpeechConfig;
use lupo_tts::credential::{resolve_credential, CredentialLookup};
use lupo_tts::error::ErrorKind;
use lupo_tts::pipeline::speakable;
use lupo_tts::request::{
    frame_payload, headers, post, prepare, Header, HttpMethod, SpeechRequest,
};

fn request_for(text: &str) -> SpeechRequest {
    SpeechRequest::build(text.to_string(), "alloy".to_string(), "gpt-4o-mini-tts".to_string())
}

fn member_text(document: &serde_json::Value, name: &str) -> String {
    document.get(name).and_then(|value| value.as_str()).expect("a string member").to_string()
}

#[test]
fn standard_config_names_the_service() {
    let config = SpeechConfig::standard();
    assert_eq!(config.endpoint, "https://api.openai.com/v1/audio/speech");
    assert_eq!(config.credential_variable, "OPENAI_API_KEY");
    assert_eq!(config.voice, "alloy");
    assert_eq!(config.model, "gpt-4o-mini-tts");
}

#[test]
fn default_config_is_the_standard_one() {
    assert_eq!(SpeechConfig::default(), SpeechConfig::standard());
}

#[test]
fn build_keeps_every_field_as_passed() {
    let request = SpeechRequest::build("Ciao".to_string(), "nova".to_string(), "tts-1".to_string());
    assert_eq!(request.text(), "Ciao");
    assert_eq!(request.voice(), "nova");
    assert_eq!(request.model(), "tts-1");
    assert_eq!(request.into_text(), "Ciao");
}

#[test]
fn build_keeps_unicode_text_exactly() {
    let text = "Ciao, come va? \u{4f60}\u{597d} \u{1f44b} na\u{ef}ve e\u{301}";
    let request = request_for(text);
    assert_eq!(request.text(), text);
    assert_eq!(request.text().chars().count(), text.chars().count());
    assert_eq!(request.text().len(), text.len());
    assert_eq!(request.into_text(), text);
}

#[test]
fn payload_is_the_object_with_model_voice_and_input() {
    let body = request_for("Ciao, come va?").payload().expect("a payload");
    assert_eq!(body, "{\"model\":\"gpt-4o-mini-tts\",\"voice\":\"alloy\",\"input\":\"Ciao, come va?\"}");
}

#[test]
fn payload_writes_each_member_as_a_string_literal() {
    let body = request_for("x").payload().expect("a payload");
    assert_ne!(body, "{\"model\":gpt-4o-mini-tts,\"voice\":alloy,\"input\":x}");
    assert!(body.contains("\"input\":\"x\""));
}

#[test]
fn payload_escapes_quotes_backslashes_and_control_characters() {
    let request = SpeechRequest::build("a\"b\\c\nd\te".to_string(), "v".to_string(), "m".to_string());
    let body = request.payload().expect("a payload");
    assert_eq!(body, "{\"model\":\"m\",\"voice\":\"v\",\"input\":\"a\\\"b\\\\c\\nd\\te\"}");
}

#[test]
fn payload_input_reads_back_as_the_text() {
    let text = "Ciao, come va?";
    let body = request_for(text).payload().expect("a payload");
    let document: serde_json::Value = serde_json::from_str(&body).expect("valid JSON");
    assert_eq!(member_text(&document, "input"), text);
    assert_eq!(member_text(&document, "voice"), "alloy");
    assert_eq!(member_text(&document, "model"), "gpt-4o-mini-tts");
    assert_eq!(document.as_object().expect("an object").len(), 3);
}

#[test]
fn payload_input_reads_back_unicode_and_escapes_without_loss() {
    let text = "\u{4f60}\u{597d} \u{1f44b} \"quoted\" back\\slash\nline\u{0}nul \u{7f} \u{2028}";
    let body = request_for(text).payload().expect("a payload");
    let document: serde_json::Value = serde_json::from_str(&body).expect("valid JSON");
    assert_eq!(member_text(&document, "input"), text);
}

#[test]
fn payload_of_a_long_text_is_not_cut() {
    let text = "parola ".repeat(5000);
    let body = request_for(&text).payload().expect("a payload");
    let document: serde_json::Value = serde_json::from_str(&body).expect("valid JSON");
    assert_eq!(member_text(&document, "input"), text);
}

#[test]
fn headers_carry_the_bearer_token_and_the_content_type() {
    let list = headers("token-1");
    assert_eq!(
        list,
        vec![
            Header { name: "Authorization".to_string(), value: "Bearer token-1".to_string() },
            Header { name: "Content-Type".to_string(), value: "application/json".to_string() },
        ]
    );
}

#[test]
fn prepare_posts_the_payload_to_the_endpoint() {
    let config = SpeechConfig::standard();
    let request = request_for("Ciao, come va?");
    let http = prepare(&config, &request, "token-1").expect("a request");
    assert_eq!(http.method, HttpMethod::Post);
    assert_eq!(http.url, "https://api.openai.com/v1/audio/speech");
    assert_eq!(http.headers.len(), 2);
    assert_eq!(http.headers[0].name, "Authorization");
    assert_eq!(http.headers[0].value, "Bearer token-1");
    assert_eq!(http.headers[1].name, "Content-Type");
    assert_eq!(http.headers[1].value, "application/json");
    assert_eq!(http.body, request.payload().expect("a payload"));
}

#[test]
fn prepare_follows_the_configuration() {
    let config = SpeechConfig {
        endpoint: "http://localhost:9/speech".to_string(),
        credential_variable: "TOKEN".to_string(),
        voice: "echo".to_string(),
        model: "tts-1".to_string(),
    };
    let request = SpeechRequest::build("hi".to_string(), "echo".to_string(), "tts-1".to_string());
    let http = prepare(&config, &request, "t").expect("a request");
    assert_eq!(http.url, "http://localhost:9/speech");
    assert_eq!(http.body, "{\"model\":\"tts-1\",\"voice\":\"echo\",\"input\":\"hi\"}");
}

#[test]
fn credential_that_is_found_is_the_token() {
    let lookup = CredentialLookup::Found { token: "abc".to_string() };
    assert_eq!(resolve_credential("OPENAI_API_KEY", lookup), Ok("abc".to_string()));
}

#[test]
fn empty_credential_is_still_a_token() {
    let lookup = CredentialLookup::Found { token: String::new() };
    assert_eq!(resolve_credential("OPENAI_API_KEY", lookup), Ok(String::new()));
}

#[test]
fn credential_that_is_missing_names_the_variable() {
    let lookup = CredentialLookup::Missing { cause: "environment variable not found".to_string() };
    let error = resolve_credential("OPENAI_API_KEY", lookup).expect_err("a failure");
    assert_eq!(error.kind, ErrorKind::MissingCredential);
    assert_eq!(error.message, "Missing OPENAI_API_KEY: environment variable not found");
}

#[test]
fn only_a_text_that_is_not_empty_is_speakable() {
    assert!(speakable("a"));
    assert!(speakable(" "));
    assert!(speakable("Ciao, come va?"));
    assert!(!speakable(""));
}

#[test]
fn frame_puts_the_literals_in_their_places() {
    assert_eq!(
        frame_payload("\"m\"", "\"v\"", "\"x\""),
        "{\"model\":\"m\",\"voice\":\"v\",\"input\":\"x\"}"
    );
    assert_eq!(frame_payload("1", "2", "3"), "{\"model\":1,\"voice\":2,\"input\":3}");
    assert_eq!(frame_payload("", "", ""), "{\"model\":,\"voice\":,\"input\":}");
}

#[test]
fn post_carries_the_body_as_given() {
    let config = SpeechConfig::standard();
    let http = post(&config, "abc", "{}".to_string());
    assert_eq!(http.method, HttpMethod::Post);
    assert_eq!(http.url, config.endpoint);
    assert_eq!(http.headers, headers("abc"));
    assert_eq!(http.body, "{}");
}

#[test]
fn payload_is_the_same_document_as_the_object_of_three_strings() {
    let text = "Ciao, come va? \u{1f44b} \"x\"";
    let mut object = serde_json::Map::new();
    object.insert("model".to_string(), serde_json::Value::String("gpt-4o-mini-tts".to_string()));
    object.insert("voice".to_string(), serde_json::Value::String("alloy".to_string()));
    object.insert("input".to_string(), serde_json::Value::String(text.to_string()));
    let expected = serde_json::Value::Object(object);
    let body = request_for(text).payload().expect("a payload");
    let sent: serde_json::Value = serde_json::from_str(&body).expect("valid JSON");
    assert_eq!(sent, expected);
}
