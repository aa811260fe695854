use translation_relay::config::ChannelLanguageConfig;
use translation_relay::json::JsonValue;

fn pair_of(config: &ChannelLanguageConfig) -> (String, String) {
    (config.default_lang().to_string(), config.target_lang().to_string())
}

fn codes_of(default_lang: &str, target_lang: &str) -> (String, String) {
    (default_lang.to_string(), target_lang.to_string())
}

fn relay_defaults() -> ChannelLanguageConfig {
    ChannelLanguageConfig::new("EN", "JA").unwrap()
}

fn topic_text(s: &str) -> JsonValue {
    JsonValue::Text(s.to_string())
}

#[test]
fn new_brings_codes_into_upper_case() {
    let config = ChannelLanguageConfig::new("en", "Ja").unwrap();
    assert_eq!(config.default_lang(), "EN");
    assert_eq!(config.target_lang(), "JA");
}

#[test]
fn new_refuses_an_empty_code() {
    assert!(ChannelLanguageConfig::new("", "JA").is_none());
    assert!(ChannelLanguageConfig::new("EN", "").is_none());
    assert!(ChannelLanguageConfig::new("", "").is_none());
}

#[test]
fn clone_keeps_both_codes() {
    let config = ChannelLanguageConfig::new("de", "fr").unwrap();
    assert_eq!(pair_of(&config.clone()), codes_of("DE", "FR"));
}

#[test]
fn from_settings_falls_back_for_each_code_alone() {
    assert_eq!(pair_of(&ChannelLanguageConfig::from_settings(None, None)), codes_of("JA", "JA"));
    assert_eq!(pair_of(&ChannelLanguageConfig::from_settings(Some("en"), None)), codes_of("EN", "JA"));
    assert_eq!(pair_of(&ChannelLanguageConfig::from_settings(None, Some("de"))), codes_of("JA", "DE"));
    assert_eq!(
        pair_of(&ChannelLanguageConfig::from_settings(Some("EN"), Some("Fr"))),
        codes_of("EN", "FR")
    );
    assert_eq!(pair_of(&ChannelLanguageConfig::from_settings(Some(""), Some(""))), codes_of("JA", "JA"));
}

#[test]
fn resolve_without_topic_gives_the_defaults() {
    assert_eq!(pair_of(&ChannelLanguageConfig::resolve(None, &relay_defaults())), codes_of("EN", "JA"));
}

#[test]
fn resolve_reads_the_pair_from_the_topic() {
    let topic = "{\"default_lang\": \"de\", \"target_lang\": \"FR\"}";
    assert_eq!(
        pair_of(&ChannelLanguageConfig::resolve(Some(topic), &relay_defaults())),
        codes_of("DE", "FR")
    );
}

#[test]
fn resolve_ignores_other_members_of_the_topic() {
    let topic = "{\"note\": [1, 2], \"target_lang\": \"ko\", \"default_lang\": \"en\", \"x\": null}";
    assert_eq!(
        pair_of(&ChannelLanguageConfig::resolve(Some(topic), &relay_defaults())),
        codes_of("EN", "KO")
    );
}

#[test]
fn resolve_falls_back_on_a_malformed_topic() {
    for topic in [
        "",
        "General chat",
        "{",
        "{\"default_lang\": \"DE\", \"target_lang\": \"FR\"",
        "{\"default_lang\": \"DE\", \"target_lang\": \"FR\"} and more",
        "[\"DE\", \"FR\"]",
        "\"DE\"",
        "null",
        "12",
    ] {
        assert_eq!(
            pair_of(&ChannelLanguageConfig::resolve(Some(topic), &relay_defaults())),
            codes_of("EN", "JA"),
            "topic {:?}",
            topic
        );
    }
}

#[test]
fn resolve_falls_back_on_an_incomplete_pair() {
    for topic in [
        "{}",
        "{\"default_lang\": \"DE\"}",
        "{\"target_lang\": \"FR\"}",
        "{\"default_lang\": \"DE\", \"target_lang\": 5}",
        "{\"default_lang\": null, \"target_lang\": \"FR\"}",
        "{\"default_lang\": \"\", \"target_lang\": \"FR\"}",
        "{\"default_lang\": \"DE\", \"target_lang\": \"\"}",
        "{\"Default_Lang\": \"DE\", \"Target_Lang\": \"FR\"}",
    ] {
        assert_eq!(
            pair_of(&ChannelLanguageConfig::resolve(Some(topic), &relay_defaults())),
            codes_of("EN", "JA"),
            "topic {:?}",
            topic
        );
    }
}

#[test]
fn resolve_always_gives_a_complete_pair() {
    let defaults = ChannelLanguageConfig::from_settings(None, None);
    for topic in [None, Some(""), Some("{}"), Some("{\"default_lang\":\"a\",\"target_lang\":\"b\"}")] {
        let config = ChannelLanguageConfig::resolve(topic, &defaults);
        assert!(!config.default_lang().is_empty());
        assert!(!config.target_lang().is_empty());
        assert_eq!(config.default_lang(), config.default_lang().to_ascii_uppercase());
        assert_eq!(config.target_lang(), config.target_lang().to_ascii_uppercase());
    }
}

#[test]
fn from_document_wants_an_object_with_both_strings() {
    let doc = JsonValue::Object(vec![
        ("default_lang".to_string(), topic_text("en")),
        ("target_lang".to_string(), topic_text("ja")),
    ]);
    let config = ChannelLanguageConfig::from_document(&doc).unwrap();
    assert_eq!(pair_of(&config), codes_of("EN", "JA"));

    let incomplete = JsonValue::Object(vec![("default_lang".to_string(), topic_text("en"))]);
    assert!(ChannelLanguageConfig::from_document(&incomplete).is_none());
    let mistyped = JsonValue::Object(vec![
        ("default_lang".to_string(), topic_text("en")),
        ("target_lang".to_string(), JsonValue::Bool(true)),
    ]);
    assert!(ChannelLanguageConfig::from_document(&mistyped).is_none());
    assert!(ChannelLanguageConfig::from_document(&JsonValue::Array(vec![topic_text("en"), topic_text("ja")]))
        .is_none());
    assert!(ChannelLanguageConfig::from_document(&JsonValue::Null).is_none());
}

#[test]
fn resolve_document_prefers_the_declared_pair() {
    let doc = JsonValue::Object(vec![
        ("default_lang".to_string(), topic_text("nl")),
        ("target_lang".to_string(), topic_text("sv")),
    ]);
    assert_eq!(
        pair_of(&ChannelLanguageConfig::resolve_document(Some(&doc), &relay_defaults())),
        codes_of("NL", "SV")
    );
    assert_eq!(
        pair_of(&ChannelLanguageConfig::resolve_document(Some(&JsonValue::Null), &relay_defaults())),
        codes_of("EN", "JA")
    );
    assert_eq!(
        pair_of(&ChannelLanguageConfig::resolve_document(None, &relay_defaults())),
        codes_of("EN", "JA")
    );
}
