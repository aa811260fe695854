use translation_relay::lang::{codes_match, normalize};

#[test]
fn normalize_maps_ascii_letters_only() {
    assert_eq!(normalize("pt-br"), "PT-BR");
    assert_eq!(normalize("Ja"), "JA");
    assert_eq!(normalize("EN"), "EN");
    assert_eq!(normalize("zh-Hans"), "ZH-HANS");
}

#[test]
fn normalize_leaves_other_characters_alone() {
    assert_eq!(normalize("é1_"), "é1_");
    assert_eq!(normalize("ß"), "ß");
    assert_eq!(normalize(""), "");
}

#[test]
fn normalize_is_idempotent() {
    for code in ["en", "En", "EN", "pt-br", "é", ""] {
        let once = normalize(code);
        assert_eq!(normalize(&once), once);
        assert_eq!(once.chars().count(), code.chars().count());
    }
}

#[test]
fn codes_match_ignores_ascii_case() {
    assert!(codes_match("en", "EN"));
    assert!(codes_match("Pt-Br", "pT-bR"));
    assert!(codes_match("", ""));
    assert!(!codes_match("EN", "JA"));
    assert!(!codes_match("EN", "EN-GB"));
    assert!(!codes_match("é", "É"));
}
