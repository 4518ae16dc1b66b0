use visolingua::gateway::{
    ask_request, build_request, extract_gemini_text, extract_openai_text, extract_response,
    provider_of, translate_request, GatewayError, Provider,
};
use visolingua::json::parse_json;

fn demo_config() -> visolingua::gateway::ConfigData {
    visolingua::gateway::ConfigData {
        llm_provider: String::from("gemini"),
        gemini_api_key: String::from("SECRET-REDACTED"),
        gemini_model: String::from("gemini-2.0-flash-exp"),
        openai_api_key: String::from("SECRET-REDACTED"),
        openai_model: String::from("gpt-4o-mini"),
        ollama_url: String::from("http://localhost:11434"),
        ollama_model: String::from("llava"),
        target_language: String::from("German"),
        overlay_transparency: String::from("0.3"),
    }
}

#[test]
fn provider_names_resolve() {
    assert_eq!(provider_of("gemini"), Some(Provider::Gemini));
    assert_eq!(provider_of("openai"), Some(Provider::Openai));
    assert_eq!(provider_of("ollama"), Some(Provider::Ollama));
    assert_eq!(provider_of("unknown"), None);
    assert_eq!(provider_of(""), None);
}

#[test]
fn gemini_translate_body_matches_wire_shape() {
    let c = demo_config();
    let req = translate_request(&c, "AAAA").unwrap();
    assert_eq!(
        req.url,
        "https://generativelanguage.googleapis.com/v1beta/models/gemini-2.0-flash-exp:generateContent?key=SECRET-REDACTED"
    );
    assert!(req.bearer_token.is_none());
    assert_eq!(
        req.body,
        "{\"contents\":[{\"parts\":[{\"text\":\"Translate the text in this image to German. Only provide the translation, no explanations.\"},{\"inline_data\":{\"mime_type\":\"image/png\",\"data\":\"AAAA\"}}]}]}"
    );
}

#[test]
fn openai_translate_body_matches_wire_shape() {
    let mut c = demo_config();
    c.llm_provider = String::from("openai");
    let req = translate_request(&c, "AAAA").unwrap();
    assert_eq!(req.url, "https://api.openai.com/v1/chat/completions");
    assert_eq!(req.bearer_token.as_deref(), Some("SECRET-REDACTED"));
    assert_eq!(
        req.body,
        "{\"model\":\"gpt-4o-mini\",\"messages\":[{\"role\":\"user\",\"content\":[{\"type\":\"text\",\"text\":\"Translate the text in this image to German. Only provide the translation, no explanations.\"},{\"type\":\"image_url\",\"image_url\":{\"url\":\"data:image/png;base64,AAAA\"}}]}],\"max_tokens\":1000}"
    );
}

#[test]
fn ollama_translate_body_matches_wire_shape() {
    let mut c = demo_config();
    c.llm_provider = String::from("ollama");
    let req = translate_request(&c, "AAAA").unwrap();
    assert_eq!(req.url, "http://localhost:11434/api/generate");
    assert!(req.bearer_token.is_none());
    assert_eq!(
        req.body,
        "{\"model\":\"llava\",\"prompt\":\"Translate the text in this image to German. Only provide the translation, no explanations.\",\"images\":[\"AAAA\"],\"stream\":false}"
    );
}

#[test]
fn ask_bodies_carry_combined_prompt_without_image() {
    let c = demo_config();
    let req = ask_request(&c, "What does it mean?", "Hallo Welt").unwrap();
    assert_eq!(
        req.body,
        "{\"contents\":[{\"parts\":[{\"text\":\"Based on this translation:\\n\\nHallo Welt\\n\\nUser question: What does it mean?\\n\\nProvide a helpful answer.\"}]}]}"
    );

    let mut c2 = demo_config();
    c2.llm_provider = String::from("ollama");
    let req2 = ask_request(&c2, "Why?", "ctx").unwrap();
    assert_eq!(
        req2.body,
        "{\"model\":\"llava\",\"prompt\":\"Based on this translation:\\n\\nctx\\n\\nUser question: Why?\\n\\nProvide a helpful answer.\",\"stream\":false}"
    );

    let mut c3 = demo_config();
    c3.llm_provider = String::from("openai");
    let req3 = ask_request(&c3, "Why?", "ctx").unwrap();
    assert_eq!(
        req3.body,
        "{\"model\":\"gpt-4o-mini\",\"messages\":[{\"role\":\"user\",\"content\":\"Based on this translation:\\n\\nctx\\n\\nUser question: Why?\\n\\nProvide a helpful answer.\"}],\"max_tokens\":1000}"
    );
}

#[test]
fn request_body_escapes_json_metacharacters() {
    let mut c = demo_config();
    c.target_language = String::from("Ger\"man\\\n");
    let req = translate_request(&c, "AAAA").unwrap();
    assert!(req.body.contains("Ger\\\"man\\\\\\n"));
    let parsed: serde_json::Value = serde_json::from_str(&req.body).unwrap();
    let text = parsed["contents"][0]["parts"][0]["text"].as_str().unwrap();
    assert!(text.contains("Ger\"man\\\n"));
}

#[test]
fn request_body_escapes_control_characters() {
    let mut c = demo_config();
    c.target_language = String::from("Ta\tb\u{1}");
    let req = translate_request(&c, "AAAA").unwrap();
    assert!(req.body.contains("Ta\\tb\\u0001"));
    let parsed: serde_json::Value = serde_json::from_str(&req.body).unwrap();
    let text = parsed["contents"][0]["parts"][0]["text"].as_str().unwrap();
    assert!(text.contains("Ta\tb\u{1}"));
}

#[test]
fn missing_gemini_key_fails_before_any_request() {
    let mut c = demo_config();
    c.gemini_api_key = String::new();
    assert_eq!(
        translate_request(&c, "AAAA"),
        Err(GatewayError::MissingCredential(Provider::Gemini))
    );
    assert_eq!(ask_request(&c, "q", "ctx"), Err(GatewayError::MissingCredential(Provider::Gemini)));
}

#[test]
fn missing_openai_key_fails_before_any_request() {
    let mut c = demo_config();
    c.llm_provider = String::from("openai");
    c.openai_api_key = String::new();
    assert_eq!(
        translate_request(&c, "AAAA"),
        Err(GatewayError::MissingCredential(Provider::Openai))
    );
}

#[test]
fn unknown_provider_fails_both_operations() {
    let mut c = demo_config();
    c.llm_provider = String::from("unknown");
    assert_eq!(
        translate_request(&c, "AAAA"),
        Err(GatewayError::UnknownProvider(String::from("unknown")))
    );
    assert_eq!(
        ask_request(&c, "q", "ctx"),
        Err(GatewayError::UnknownProvider(String::from("unknown")))
    );
}

#[test]
fn gemini_extraction_reads_nested_text() {
    let r = extract_response(
        Provider::Gemini,
        "{\"candidates\":[{\"content\":{\"parts\":[{\"text\":\"Hallo\"}]}}]}",
    );
    assert_eq!(r, Ok(String::from("Hallo")));
}

#[test]
fn gemini_extraction_rejects_empty_candidates() {
    let r = extract_response(Provider::Gemini, "{\"candidates\":[]}");
    assert_eq!(r, Err(GatewayError::InvalidResponseFormat(Provider::Gemini)));
}

#[test]
fn extraction_is_total_over_malformed_input() {
    assert_eq!(
        extract_response(Provider::Gemini, "not json at all"),
        Err(GatewayError::InvalidResponseFormat(Provider::Gemini))
    );
    assert_eq!(
        extract_response(Provider::Openai, "{\"choices\":[{\"message\":{}}]}"),
        Err(GatewayError::InvalidResponseFormat(Provider::Openai))
    );
    assert_eq!(
        extract_response(Provider::Openai, "{\"choices\":[{\"message\":{\"content\":7}}]}"),
        Err(GatewayError::InvalidResponseFormat(Provider::Openai))
    );
    assert_eq!(
        extract_response(Provider::Ollama, "{\"answer\":\"x\"}"),
        Err(GatewayError::InvalidResponseFormat(Provider::Ollama))
    );
    assert_eq!(
        extract_response(Provider::Ollama, "[1,2,3]"),
        Err(GatewayError::InvalidResponseFormat(Provider::Ollama))
    );
}

#[test]
fn openai_and_ollama_extraction_read_their_paths() {
    let r = extract_response(
        Provider::Openai,
        "{\"choices\":[{\"message\":{\"content\":\"Bonjour\"}}]}",
    );
    assert_eq!(r, Ok(String::from("Bonjour")));
    let r2 = extract_response(Provider::Ollama, "{\"response\":\"Hej\",\"done\":true}");
    assert_eq!(r2, Ok(String::from("Hej")));
}

#[test]
fn extractors_work_on_parsed_documents() {
    let j = parse_json("{\"candidates\":[{\"content\":{\"parts\":[{\"text\":\"Hallo\"}]}}]}")
        .unwrap();
    assert_eq!(extract_gemini_text(&j), Ok(String::from("Hallo")));
    let j2 = parse_json("{\"choices\":[{\"message\":{\"content\":\"Ok\"}}]}").unwrap();
    assert_eq!(extract_openai_text(&j2), Ok(String::from("Ok")));
}
