//! The language pair of a channel, and how it is resolved.

use crate::json::{json_document, parse_json, text_field, JsonValue};
use crate::lang::{ascii_upper, is_language_code, lemma_ascii_upper_idempotent, normalize};
use vstd::prelude::*;

verus! {

/// The two language codes of a channel, as mathematical texts.
pub struct LanguagePair {
    pub default_lang: Seq<char>,
    pub target_lang: Seq<char>,
}

/// The language pair of a channel: its home language and the language that
/// foreign messages are translated into. Both codes are always present and in
/// canonical upper-case form.
#[derive(Debug, PartialEq, Eq)]
pub struct ChannelLanguageConfig {
    default_lang: String,
    target_lang: String,
}

impl View for ChannelLanguageConfig {
    type V = LanguagePair;

    closed spec fn view(&self) -> LanguagePair {
        LanguagePair { default_lang: self.default_lang@, target_lang: self.target_lang@ }
    }
}

/// The pair that two raw codes stand for: `None` where either is empty, else
/// both in canonical form.
pub open spec fn pair_of(default_lang: Seq<char>, target_lang: Seq<char>) -> Option<LanguagePair> {
    if default_lang.len() > 0 && target_lang.len() > 0 {
        Some(
            LanguagePair {
                default_lang: ascii_upper(default_lang),
                target_lang: ascii_upper(target_lang),
            },
        )
    } else {
        None
    }
}

/// The pair that a channel's configuration document declares: the document
/// must be an object whose members `default_lang` and `target_lang` are
/// non-empty strings.
pub open spec fn pair_from_document(doc: JsonValue) -> Option<LanguagePair> {
    match (text_field(doc, "default_lang"@), text_field(doc, "target_lang"@)) {
        (Some(d), Some(t)) => pair_of(d, t),
        _ => None,
    }
}

/// The pair in force for a channel with the given topic: what the topic
/// declares if it is a JSON document that declares a pair, else the defaults.
pub open spec fn resolved(topic: Option<Seq<char>>, defaults: LanguagePair) -> LanguagePair {
    match topic {
        Some(text) => match json_document(text) {
            Some(doc) => match pair_from_document(doc) {
                Some(pair) => pair,
                None => defaults,
            },
            None => defaults,
        },
        None => defaults,
    }
}

/// The pair in force once the topic has been parsed.
pub open spec fn resolved_from(doc: Option<JsonValue>, defaults: LanguagePair) -> LanguagePair {
    match doc {
        Some(d) => match pair_from_document(d) {
            Some(pair) => pair,
            None => defaults,
        },
        None => defaults,
    }
}

/// The text of an optional string slice.
pub open spec fn optional_text(text: Option<&str>) -> Option<Seq<char>> {
    match text {
        Some(t) => Some(t@),
        None => None,
    }
}

/// The code used where the process is given no default or target language.
pub open spec fn fallback_code() -> Seq<char> {
    "JA"@
}

/// The code that an optional process setting stands for: the setting in
/// canonical form, or the fallback code where it is absent or empty.
pub open spec fn setting_code(setting: Option<Seq<char>>) -> Seq<char> {
    match setting {
        Some(code) if code.len() > 0 => ascii_upper(code),
        _ => ascii_upper(fallback_code()),
    }
}

fn code_of_setting(setting: Option<&str>) -> (r: String)
    ensures
        r@ == setting_code(optional_text(setting)),
        is_language_code(r@),
{
    proof {
        reveal_strlit("JA");
    }
    match setting {
        Some(code) if code.unicode_len() > 0 => normalize(code),
        _ => normalize("JA"),
    }
}

impl ChannelLanguageConfig {
    #[verifier::type_invariant]
    spec fn canonical(self) -> bool {
        is_language_code(self.default_lang@) && is_language_code(self.target_lang@)
    }

    /// Both codes are present and canonical. This holds of every value that
    /// the program can build.
    pub open spec fn wf(&self) -> bool {
        is_language_code(self@.default_lang) && is_language_code(self@.target_lang)
    }

    /// Builds a pair from two raw codes, bringing each into canonical form.
    /// Fails exactly where one of them is empty.
    pub fn new(default_lang: &str, target_lang: &str) -> (r: Option<Self>)
        ensures
            match r {
                Some(c) => pair_of(default_lang@, target_lang@) == Some(c@) && c.wf(),
                None => pair_of(default_lang@, target_lang@) is None,
            },
    {
        if default_lang.unicode_len() == 0 || target_lang.unicode_len() == 0 {
            return None;
        }
        Some(
            ChannelLanguageConfig {
                default_lang: normalize(default_lang),
                target_lang: normalize(target_lang),
            },
        )
    }

    /// The process-wide pair, from the two optional settings of the process.
    /// An absent or empty setting stands for the fallback code.
    pub fn from_settings(default_lang: Option<&str>, target_lang: Option<&str>) -> (r: Self)
        ensures
            r@.default_lang == setting_code(optional_text(default_lang)),
            r@.target_lang == setting_code(optional_text(target_lang)),
            r.wf(),
    {
        ChannelLanguageConfig {
            default_lang: code_of_setting(default_lang),
            target_lang: code_of_setting(target_lang),
        }
    }

    /// The home language of the channel.
    pub fn default_lang(&self) -> (r: &str)
        ensures
            r@ == self@.default_lang,
            is_language_code(r@),
    {
        proof {
            use_type_invariant(self);
        }
        self.default_lang.as_str()
    }

    /// The language that foreign messages are translated into.
    pub fn target_lang(&self) -> (r: &str)
        ensures
            r@ == self@.target_lang,
            is_language_code(r@),
    {
        proof {
            use_type_invariant(self);
        }
        self.target_lang.as_str()
    }

    /// Reads the pair that a parsed channel topic declares.
    pub fn from_document(doc: &JsonValue) -> (r: Option<Self>)
        ensures
            match r {
                Some(c) => pair_from_document(*doc) == Some(c@) && c.wf(),
                None => pair_from_document(*doc) is None,
            },
    {
        match (doc.get_text("default_lang"), doc.get_text("target_lang")) {
            (Some(d), Some(t)) => ChannelLanguageConfig::new(d.as_str(), t.as_str()),
            _ => None,
        }
    }

    /// Chooses between the pair that a parsed topic declares and the defaults.
    pub fn resolve_document(doc: Option<&JsonValue>, defaults: &Self) -> (r: Self)
        ensures
            r@ == resolved_from(
                match doc {
                    Some(d) => Some(*d),
                    None => None,
                },
                defaults@,
            ),
            r.wf(),
    {
        match doc {
            Some(d) => match ChannelLanguageConfig::from_document(d) {
                Some(pair) => pair,
                None => defaults.clone(),
            },
            None => defaults.clone(),
        }
    }

    /// Resolves the language pair of a channel from its topic. A channel
    /// without a topic, a topic that is no JSON document, and a document that
    /// declares no complete pair all give the defaults unchanged; nothing is
    /// reported as an error.
    pub fn resolve(topic: Option<&str>, defaults: &Self) -> (r: Self)
        ensures
            r@ == resolved(optional_text(topic), defaults@),
            r.wf(),
            topic is None ==> r@ == defaults@,
            topic matches Some(t) && json_document(t@) is None ==> r@ == defaults@,
    {
        match topic {
            Some(text) => {
                let doc = parse_json(text);
                ChannelLanguageConfig::resolve_document(doc.as_ref(), defaults)
            },
            None => defaults.clone(),
        }
    }
}

impl Clone for ChannelLanguageConfig {
    fn clone(&self) -> (r: Self)
        ensures
            r@ == self@,
            r.wf(),
    {
        proof {
            use_type_invariant(self);
        }
        ChannelLanguageConfig {
            default_lang: self.default_lang.clone(),
            target_lang: self.target_lang.clone(),
        }
    }
}

/// Resolution always gives a complete, canonical pair, and gives the defaults
/// themselves where the channel has no topic, where the topic is no JSON
/// document, and where the document declares no complete pair.
pub proof fn lemma_resolved_is_total(topic: Option<Seq<char>>, defaults: LanguagePair)
    requires
        is_language_code(defaults.default_lang),
        is_language_code(defaults.target_lang),
    ensures
        is_language_code(resolved(topic, defaults).default_lang),
        is_language_code(resolved(topic, defaults).target_lang),
        topic is None ==> resolved(topic, defaults) == defaults,
        topic matches Some(text) ==> (json_document(text) is None ==> resolved(topic, defaults)
            == defaults),
        topic matches Some(text) ==> (json_document(text) matches Some(doc) ==> (
        pair_from_document(doc) is None ==> resolved(topic, defaults) == defaults)),
{
    if let Some(text) = topic {
        if let Some(doc) = json_document(text) {
            if let Some(pair) = pair_from_document(doc) {
                let d = text_field(doc, "default_lang"@)->0;
                let t = text_field(doc, "target_lang"@)->0;
                lemma_ascii_upper_idempotent(d);
                lemma_ascii_upper_idempotent(t);
            }
        }
    }
}

} // verus!
