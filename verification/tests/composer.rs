use translation_relay::client::{
    Translation, TranslationError, TranslationRequest, TranslationResponse,
};
use translation_relay::composer::{plan_reply, PendingReply, ReplyDecision, ReplyPlan};
use translation_relay::config::ChannelLanguageConfig;

fn single(text: &str, lang: &str) -> TranslationResponse {
    TranslationResponse {
        translations: vec![Translation {
            text: text.to_string(),
            detected_source_language: lang.to_string(),
        }],
    }
}

fn en_ja() -> ChannelLanguageConfig {
    ChannelLanguageConfig::new("EN", "JA").unwrap()
}

fn note(lang: &str) -> String {
    format!("(translated {} `{}`)", "from", lang)
}

fn pending_of(plan: ReplyPlan) -> PendingReply {
    match plan {
        ReplyPlan::Pending(pending) => pending,
        ReplyPlan::Settled(decision) => panic!("settled as {:?}", decision),
    }
}

#[test]
fn message_in_default_language_gets_the_primary_translation() {
    let plan = plan_reply(&single("こんにちは", "EN"), &en_ja(), "Hello");
    assert_eq!(plan, ReplyPlan::Settled(ReplyDecision::Reply("`JA: こんにちは`".to_string())));
}

#[test]
fn detected_language_is_compared_without_regard_to_case() {
    let plan = plan_reply(&single("こんにちは", "en"), &en_ja(), "Hello");
    assert_eq!(plan, ReplyPlan::Settled(ReplyDecision::Reply("`JA: こんにちは`".to_string())));
    let plan = plan_reply(&single("こんにちは", "ja"), &en_ja(), "こんにちは");
    assert!(matches!(plan, ReplyPlan::Pending(PendingReply::Reverse { .. })));
}

#[test]
fn message_in_target_language_asks_for_the_reverse_translation() {
    let plan = plan_reply(&single("こんにちは", "JA"), &en_ja(), "こんにちは");
    assert_eq!(
        plan,
        ReplyPlan::Pending(PendingReply::Reverse {
            original_text: "こんにちは".to_string(),
            default_lang: "EN".to_string(),
        })
    );
    let pending = pending_of(plan);
    assert_eq!(pending.request(), TranslationRequest::new("こんにちは", "EN"));
}

#[test]
fn reverse_translation_success_shows_the_default_language_line() {
    let pending = pending_of(plan_reply(&single("こんにちは", "JA"), &en_ja(), "こんにちは"));
    assert_eq!(pending.finish(&Ok(single("Hello", "JA"))), "`EN: ` Hello");
}

#[test]
fn reverse_translation_failure_names_the_default_language() {
    let pending = pending_of(plan_reply(&single("こんにちは", "JA"), &en_ja(), "こんにちは"));
    for error in
        [TranslationError::Connectivity, TranslationError::Remote(500), TranslationError::Decode]
    {
        assert_eq!(pending.finish(&Err(error)), "Failed to translate `こんにちは` to `EN`");
    }
}

#[test]
fn message_in_third_language_asks_for_the_default_language_too() {
    let plan = plan_reply(&single("こんにちは", "NL"), &en_ja(), "Hallo");
    assert_eq!(
        plan,
        ReplyPlan::Pending(PendingReply::Auxiliary {
            original_text: "Hallo".to_string(),
            default_lang: "EN".to_string(),
            target_lang: "JA".to_string(),
            primary_text: "こんにちは".to_string(),
            detected_lang: "NL".to_string(),
        })
    );
    assert_eq!(pending_of(plan).request(), TranslationRequest::new("Hallo", "EN"));
}

#[test]
fn third_language_success_shows_both_lines_and_the_detected_language() {
    let pending = pending_of(plan_reply(&single("こんにちは", "NL"), &en_ja(), "Hallo"));
    let reply = pending.finish(&Ok(single("Hello", "NL")));
    assert_eq!(reply, format!("`JA: ` こんにちは \n`EN: ` Hello \n{}", note("NL")));
    let target_line = reply.find("`JA: ` こんにちは").unwrap();
    let default_line = reply.find("`EN: ` Hello").unwrap();
    assert!(target_line < default_line);
    assert!(reply.contains("NL"));
}

#[test]
fn third_language_failure_drops_the_primary_translation() {
    let pending = pending_of(plan_reply(&single("こんにちは", "NL"), &en_ja(), "Hallo"));
    let reply = pending.finish(&Err(TranslationError::Connectivity));
    assert_eq!(reply, "Failed to translate to `EN`");
    assert!(!reply.contains("こんにちは"));
}

#[test]
fn several_translations_suppress_the_reply() {
    let response = TranslationResponse {
        translations: vec![
            Translation { text: "a".to_string(), detected_source_language: "EN".to_string() },
            Translation { text: "b".to_string(), detected_source_language: "EN".to_string() },
        ],
    };
    assert_eq!(
        plan_reply(&response, &en_ja(), "Hello"),
        ReplyPlan::Settled(ReplyDecision::Suppressed)
    );
}

#[test]
fn equal_target_and_default_route_as_target() {
    let same = ChannelLanguageConfig::new("JA", "JA").unwrap();
    let plan = plan_reply(&single("こんにちは", "JA"), &same, "こんにちは");
    assert_eq!(
        plan,
        ReplyPlan::Pending(PendingReply::Reverse {
            original_text: "こんにちは".to_string(),
            default_lang: "JA".to_string(),
        })
    );
}

#[test]
fn finish_reads_the_first_translation_of_the_follow_up() {
    let pending = PendingReply::Reverse {
        original_text: "hej".to_string(),
        default_lang: "EN".to_string(),
    };
    let several = TranslationResponse {
        translations: vec![
            Translation { text: "hi".to_string(), detected_source_language: "SV".to_string() },
            Translation { text: "yo".to_string(), detected_source_language: "SV".to_string() },
        ],
    };
    assert_eq!(pending.finish(&Ok(several)), "`EN: ` hi");
}
