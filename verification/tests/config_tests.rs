use visolingua::config::Config;

#[test]
fn empty_config_misses_everything() {
    let c = Config::new();
    assert_eq!(c.get("llm", "provider"), None);
    assert_eq!(c.get("", ""), None);
}

#[test]
fn set_then_get_round_trips() {
    let mut c = Config::new();
    c.set("llm", "provider", "ollama");
    assert_eq!(c.get("llm", "provider").as_deref(), Some("ollama"));
    assert_eq!(c.get("llm", "ollama_url"), None);
    assert_eq!(c.get("api_keys", "provider"), None);
}

#[test]
fn set_overwrites_in_place() {
    let mut c = Config::new();
    c.set("llm", "provider", "gemini");
    c.set("translation", "target_language", "French");
    c.set("llm", "provider", "openai");
    assert_eq!(c.get("llm", "provider").as_deref(), Some("openai"));
    assert_eq!(c.get("translation", "target_language").as_deref(), Some("French"));
}

#[test]
fn default_config_holds_documented_values() {
    let c = Config::default_config();
    assert_eq!(c.get("llm", "provider").as_deref(), Some("gemini"));
    assert_eq!(c.get("llm", "gemini_model").as_deref(), Some("gemini-2.0-flash-exp"));
    assert_eq!(c.get("llm", "openai_model").as_deref(), Some("gpt-4o-mini"));
    assert_eq!(c.get("llm", "ollama_url").as_deref(), Some("http://localhost:11434"));
    assert_eq!(c.get("llm", "ollama_model").as_deref(), Some("llava"));
    assert_eq!(c.get("api_keys", "gemini").as_deref(), Some(""));
    assert_eq!(c.get("api_keys", "openai").as_deref(), Some(""));
    assert_eq!(c.get("translation", "target_language").as_deref(), Some("German"));
    assert_eq!(c.get("ui", "overlay_transparency").as_deref(), Some("0.3"));
    assert_eq!(c.get("llm", "nonsense"), None);
}

#[test]
fn get_data_falls_back_to_empty_and_default_transparency() {
    let c = Config::new();
    let d = c.get_data();
    assert_eq!(d.llm_provider, "");
    assert_eq!(d.gemini_api_key, "");
    assert_eq!(d.target_language, "");
    assert_eq!(d.overlay_transparency, "0.3");
}

#[test]
fn update_writes_whole_snapshot() {
    let mut c = Config::default_config();
    let mut d = c.get_data();
    assert_eq!(d.llm_provider, "gemini");
    assert_eq!(d.target_language, "German");
    d.llm_provider = String::from("ollama");
    d.gemini_api_key = String::from("SECRET-REDACTED");
    d.target_language = String::from("English");
    c.update(d);
    let d2 = c.get_data();
    assert_eq!(d2.llm_provider, "ollama");
    assert_eq!(d2.gemini_api_key, "SECRET-REDACTED");
    assert_eq!(d2.target_language, "English");
    assert_eq!(d2.ollama_model, "llava");
    assert_eq!(d2.overlay_transparency, "0.3");
}
