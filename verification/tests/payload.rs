use wispr_core::config::{AppConfig, IntelligenceConfig};
use wispr_core::llm::{developer_prompt, generation_prompt};
use wispr_core::models::{GenerationRequest, GenerationStyle, TranscriptionProvider};
use wispr_core::payload::{
    build_generation_request_body, build_request_body, decision_schema, json_string_text,
    key_configured, settings_json,
};

fn parse(text: &str) -> serde_json::Value {
    serde_json::from_str(text).expect("valid JSON")
}

#[test]
fn strings_are_escaped_as_serde_json_writes_them() {
    let raw = "a\"b\\c\n\t\r\u{8}\u{c}\u{1}\u{1f} é/\u{7f}";
    let ours = json_string_text(raw);
    assert_eq!(ours, serde_json::to_string(raw).expect("serializable"));
    assert_eq!(json_string_text("\u{1}"), "\"\\u0001\"");
    assert_eq!(json_string_text(""), "\"\"");
    assert_eq!(parse(&ours).as_str(), Some(raw));
}

#[test]
fn decision_schema_is_canonical_json() {
    let schema = parse(decision_schema());
    assert_eq!(serde_json::to_string(&schema).expect("serializable"), decision_schema());
    assert_eq!(schema["type"], "object");
    let repeat = &schema["properties"]["actions"]["items"]["properties"]["repeat"];
    assert_eq!(repeat["minimum"], 1);
    assert_eq!(repeat["maximum"], 12);
    assert_eq!(schema["required"].as_array().map(|r| r.len()), Some(9));
}

#[test]
fn decision_request_body_carries_the_request() {
    let mut config = IntelligenceConfig::default();
    config.model = "model \"x\"".to_string();
    let request_json = "{\n  \"finalized_text\": \"say \\\"hi\\\"\"\n}";
    let body = build_request_body(&config, request_json, true);
    let value = parse(&body);
    assert_eq!(serde_json::to_string(&value).expect("serializable"), body);
    assert_eq!(value["model"], "model \"x\"");
    assert_eq!(value["stream"], true);
    assert_eq!(value["input"][0]["role"], "developer");
    assert_eq!(value["input"][0]["content"][0]["text"].as_str(), Some(developer_prompt()));
    assert_eq!(value["input"][1]["role"], "user");
    assert_eq!(value["input"][1]["content"][0]["type"], "input_text");
    assert_eq!(value["input"][1]["content"][0]["text"].as_str(), Some(request_json));
    assert_eq!(value["text"]["format"]["name"], "wispr_segment_decision");
    assert_eq!(value["text"]["format"]["strict"], true);
    assert_eq!(value["text"]["format"]["schema"], parse(decision_schema()));
    let not_streaming = parse(&build_request_body(&config, "{}", false));
    assert_eq!(not_streaming["stream"], false);
}

#[test]
fn generation_request_body_uses_the_style_prompt() {
    let config = IntelligenceConfig::default();
    let request = GenerationRequest {
        request_text: "write to Sam".to_string(),
        generation_prompt: "an email to Sam".to_string(),
        generation_style: GenerationStyle::Email,
        recent_text: String::new(),
        active_app: None,
    };
    let body = build_generation_request_body(&config, &request, "{\"x\":1}", false);
    let value = parse(&body);
    assert_eq!(serde_json::to_string(&value).expect("serializable"), body);
    assert_eq!(value["model"], "gpt-4o-mini");
    assert_eq!(value["stream"], false);
    assert_eq!(
        value["input"][0]["content"][0]["text"].as_str(),
        Some(generation_prompt(GenerationStyle::Email))
    );
    assert_eq!(value["input"][1]["content"][0]["text"], "{\"x\":1}");
    assert!(value.get("text").is_none());
}

#[test]
fn settings_summary_for_scripts() {
    let mut config = AppConfig::default();
    config.transcription.provider = TranscriptionProvider::WhisperLocal;
    let text = settings_json(&config, key_configured(Some("  ")), key_configured(Some("sk")));
    assert_eq!(
        text,
        "{\"deepgram_key_configured\":false,\"intelligence_enabled\":true,\"llm_base_url\":\"https://api.openai.com/v1\",\"llm_key_configured\":true,\"llm_model\":\"gpt-4o-mini\",\"provider\":\"whisper_local\",\"whisper_model\":\"base.en\"}"
    );
    assert!(!key_configured(None));
}
