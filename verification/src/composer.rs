//! The routing decision: which translations a message needs and what the
//! reply says.
//!
//! A message is first translated into the channel's target language. From the
//! language that the service detected in it, [`plan_reply`] decides whether
//! that translation is the reply, or whether the message has to be translated
//! into the channel's default language as well. In that case the caller issues
//! the one follow-up request and hands its outcome to [`PendingReply::finish`].

use crate::client::{TranslationError, TranslationRequest, TranslationResponse, TranslationView, RequestView};
use crate::config::{ChannelLanguageConfig, LanguagePair};
use crate::lang::{codes_match, same_language};
use vstd::prelude::*;

verus! {

/// What to do about a message once its translations are known.
#[derive(Debug, PartialEq, Eq)]
pub enum ReplyDecision {
    /// Answer the message with this text.
    Reply(String),
    /// Send nothing.
    Suppressed,
}

/// A [`ReplyDecision`] as a mathematical value.
pub enum DecisionView {
    Reply(Seq<char>),
    Suppressed,
}

impl View for ReplyDecision {
    type V = DecisionView;

    open spec fn view(&self) -> DecisionView {
        match self {
            ReplyDecision::Reply(text) => DecisionView::Reply(text@),
            ReplyDecision::Suppressed => DecisionView::Suppressed,
        }
    }
}

/// A reply that waits for the message to be translated into the default
/// language.
#[derive(Debug, PartialEq, Eq)]
pub enum PendingReply {
    /// The message was already written in the target language: the reply will
    /// be its translation into the default language.
    Reverse { original_text: String, default_lang: String },
    /// The message was written in a language that is neither the target nor
    /// the default: the reply will show both translations.
    Auxiliary {
        original_text: String,
        default_lang: String,
        target_lang: String,
        primary_text: String,
        detected_lang: String,
    },
}

/// A [`PendingReply`] as a mathematical value.
pub enum PendingView {
    Reverse { original_text: Seq<char>, default_lang: Seq<char> },
    Auxiliary {
        original_text: Seq<char>,
        default_lang: Seq<char>,
        target_lang: Seq<char>,
        primary_text: Seq<char>,
        detected_lang: Seq<char>,
    },
}

impl View for PendingReply {
    type V = PendingView;

    open spec fn view(&self) -> PendingView {
        match self {
            PendingReply::Reverse { original_text, default_lang } => PendingView::Reverse {
                original_text: original_text@,
                default_lang: default_lang@,
            },
            PendingReply::Auxiliary {
                original_text,
                default_lang,
                target_lang,
                primary_text,
                detected_lang,
            } => PendingView::Auxiliary {
                original_text: original_text@,
                default_lang: default_lang@,
                target_lang: target_lang@,
                primary_text: primary_text@,
                detected_lang: detected_lang@,
            },
        }
    }
}

/// The outcome of planning: either the decision is made, or one more
/// translation is needed first.
#[derive(Debug, PartialEq, Eq)]
pub enum ReplyPlan {
    Settled(ReplyDecision),
    Pending(PendingReply),
}

/// A [`ReplyPlan`] as a mathematical value.
pub enum PlanView {
    Settled(DecisionView),
    Pending(PendingView),
}

impl View for ReplyPlan {
    type V = PlanView;

    open spec fn view(&self) -> PlanView {
        match self {
            ReplyPlan::Settled(decision) => PlanView::Settled(decision@),
            ReplyPlan::Pending(pending) => PlanView::Pending(pending@),
        }
    }
}

/// How the detected source language relates to the channel's pair.
pub enum Route {
    /// The message was written in the target language.
    Reverse,
    /// The message was written in the default language.
    Direct,
    /// The message was written in some third language.
    Auxiliary,
}

/// The route for a detected language. A language that matches the target is
/// routed as such even where target and default coincide.
pub open spec fn route_of(detected: Seq<char>, pair: LanguagePair) -> Route {
    if same_language(detected, pair.target_lang) {
        Route::Reverse
    } else if same_language(detected, pair.default_lang) {
        Route::Direct
    } else {
        Route::Auxiliary
    }
}

/// The reply for a message in the default language: one line with the target
/// language and the translation.
pub open spec fn direct_reply(target_lang: Seq<char>, translation: Seq<char>) -> Seq<char> {
    "`"@ + target_lang + ": "@ + translation + "`"@
}

/// The reply for a message in the target language: one line with the default
/// language and the translation into it.
pub open spec fn reverse_reply(default_lang: Seq<char>, translation: Seq<char>) -> Seq<char> {
    "`"@ + default_lang + ": ` "@ + translation
}

/// The reply for a message in a third language: the line of the target
/// language, the line of the default language, and a note that names the
/// detected language.
pub open spec fn auxiliary_reply(
    target_lang: Seq<char>,
    primary: Seq<char>,
    default_lang: Seq<char>,
    secondary: Seq<char>,
    detected_lang: Seq<char>,
) -> Seq<char> {
    "`"@ + target_lang + ": ` "@ + primary + " \n"@ + "`"@ + default_lang + ": ` "@ + secondary
        + " \n(translated"@ + " from `"@ + detected_lang + "`)"@
}

/// The notice sent where a message in the target language could not be
/// translated into the default language.
pub open spec fn reverse_failure_notice(original_text: Seq<char>, default_lang: Seq<char>) -> Seq<
    char,
> {
    "Failed to translate `"@ + original_text + "` to `"@ + default_lang + "`"@
}

/// The notice sent where a message in a third language could not be
/// translated into the default language.
pub open spec fn auxiliary_failure_notice(default_lang: Seq<char>) -> Seq<char> {
    "Failed to translate to `"@ + default_lang + "`"@
}

/// The plan for a message, given the translations that the primary request
/// brought. More than one translation for one text is an anomaly and
/// suppresses the reply.
pub open spec fn planned(
    primary: Seq<TranslationView>,
    pair: LanguagePair,
    original_text: Seq<char>,
) -> PlanView
    recommends
        primary.len() >= 1,
{
    if primary.len() > 1 {
        PlanView::Settled(DecisionView::Suppressed)
    } else {
        let first = primary[0];
        match route_of(first.detected_source_language, pair) {
            Route::Direct => PlanView::Settled(
                DecisionView::Reply(direct_reply(pair.target_lang, first.text)),
            ),
            Route::Reverse => PlanView::Pending(
                PendingView::Reverse {
                    original_text: original_text,
                    default_lang: pair.default_lang,
                },
            ),
            Route::Auxiliary => PlanView::Pending(
                PendingView::Auxiliary {
                    original_text: original_text,
                    default_lang: pair.default_lang,
                    target_lang: pair.target_lang,
                    primary_text: first.text,
                    detected_lang: first.detected_source_language,
                },
            ),
        }
    }
}

/// The follow-up request that a pending reply waits for: the original text,
/// into the default language.
pub open spec fn follow_up(pending: PendingView) -> RequestView {
    match pending {
        PendingView::Reverse { original_text, default_lang } => RequestView {
            text: original_text,
            target_lang: default_lang,
        },
        PendingView::Auxiliary { original_text, default_lang, .. } => RequestView {
            text: original_text,
            target_lang: default_lang,
        },
    }
}

/// The text of a pending reply once the follow-up request has ended. A failed
/// request gives a notice that names the default language; it never gives no
/// reply.
pub open spec fn finished(
    pending: PendingView,
    outcome: Result<Seq<TranslationView>, TranslationError>,
) -> Seq<char>
    recommends
        outcome matches Ok(translations) ==> translations.len() >= 1,
{
    match pending {
        PendingView::Reverse { original_text, default_lang } => match outcome {
            Ok(translations) => reverse_reply(default_lang, translations[0].text),
            Err(_) => reverse_failure_notice(original_text, default_lang),
        },
        PendingView::Auxiliary {
            original_text,
            default_lang,
            target_lang,
            primary_text,
            detected_lang,
        } => match outcome {
            Ok(translations) => auxiliary_reply(
                target_lang,
                primary_text,
                default_lang,
                translations[0].text,
                detected_lang,
            ),
            Err(_) => auxiliary_failure_notice(default_lang),
        },
    }
}

/// The outcome of a translation call as a mathematical value.
pub open spec fn outcome_view(outcome: Result<TranslationResponse, TranslationError>) -> Result<
    Seq<TranslationView>,
    TranslationError,
> {
    match outcome {
        Ok(response) => Ok(response@),
        Err(e) => Err(e),
    }
}

fn direct_line(target_lang: &str, translation: &str) -> (r: String)
    ensures
        r@ == direct_reply(target_lang@, translation@),
{
    let mut out = String::from_str("`");
    out.append(target_lang);
    out.append(": ");
    out.append(translation);
    out.append("`");
    out
}

fn reverse_line(default_lang: &str, translation: &str) -> (r: String)
    ensures
        r@ == reverse_reply(default_lang@, translation@),
{
    let mut out = String::from_str("`");
    out.append(default_lang);
    out.append(": ` ");
    out.append(translation);
    out
}

fn auxiliary_lines(
    target_lang: &str,
    primary: &str,
    default_lang: &str,
    secondary: &str,
    detected_lang: &str,
) -> (r: String)
    ensures
        r@ == auxiliary_reply(target_lang@, primary@, default_lang@, secondary@, detected_lang@),
{
    let mut out = String::from_str("`");
    out.append(target_lang);
    out.append(": ` ");
    out.append(primary);
    out.append(" \n");
    out.append("`");
    out.append(default_lang);
    out.append(": ` ");
    out.append(secondary);
    out.append(" \n(translated");
    out.append(" from `");
    out.append(detected_lang);
    out.append("`)");
    out
}

fn reverse_failure(original_text: &str, default_lang: &str) -> (r: String)
    ensures
        r@ == reverse_failure_notice(original_text@, default_lang@),
{
    let mut out = String::from_str("Failed to translate `");
    out.append(original_text);
    out.append("` to `");
    out.append(default_lang);
    out.append("`");
    out
}

fn auxiliary_failure(default_lang: &str) -> (r: String)
    ensures
        r@ == auxiliary_failure_notice(default_lang@),
{
    let mut out = String::from_str("Failed to translate to `");
    out.append(default_lang);
    out.append("`");
    out
}

/// Decides what the primary translation of a message leads to.
///
/// More than one translation suppresses the reply. Otherwise the detected
/// source language is compared, up to case, with the channel's pair: a
/// message in the default language is answered with its translation; a
/// message in the target language, or in a third language, needs the
/// follow-up translation into the default language first.
pub fn plan_reply(
    primary: &TranslationResponse,
    config: &ChannelLanguageConfig,
    original_text: &str,
) -> (r: ReplyPlan)
    requires
        primary@.len() >= 1,
    ensures
        r@ == planned(primary@, config@, original_text@),
        primary@.len() > 1 ==> r@ == PlanView::Settled(DecisionView::Suppressed),
{
    if primary.translations.len() > 1 {
        return ReplyPlan::Settled(ReplyDecision::Suppressed);
    }
    let first = &primary.translations[0];
    assert(primary@[0] == first@);
    let detected = first.detected_source_language.as_str();
    if codes_match(detected, config.target_lang()) {
        ReplyPlan::Pending(
            PendingReply::Reverse {
                original_text: original_text.to_owned(),
                default_lang: config.default_lang().to_owned(),
            },
        )
    } else if codes_match(detected, config.default_lang()) {
        ReplyPlan::Settled(
            ReplyDecision::Reply(direct_line(config.target_lang(), first.text.as_str())),
        )
    } else {
        ReplyPlan::Pending(
            PendingReply::Auxiliary {
                original_text: original_text.to_owned(),
                default_lang: config.default_lang().to_owned(),
                target_lang: config.target_lang().to_owned(),
                primary_text: first.text.clone(),
                detected_lang: first.detected_source_language.clone(),
            },
        )
    }
}

impl PendingReply {
    /// The follow-up request to issue: the original text, into the default
    /// language.
    pub fn request(&self) -> (r: TranslationRequest)
        ensures
            r@ == follow_up(self@),
    {
        match self {
            PendingReply::Reverse { original_text, default_lang } => TranslationRequest::new(
                original_text.as_str(),
                default_lang.as_str(),
            ),
            PendingReply::Auxiliary { original_text, default_lang, .. } => TranslationRequest::new(
                original_text.as_str(),
                default_lang.as_str(),
            ),
        }
    }

    /// The reply, now that the follow-up request has ended. Whatever the
    /// outcome, there is a reply: the translation(s) on success, a notice that
    /// names the default language on failure.
    pub fn finish(&self, outcome: &Result<TranslationResponse, TranslationError>) -> (r: String)
        requires
            outcome matches Ok(response) ==> response@.len() >= 1,
        ensures
            r@ == finished(self@, outcome_view(*outcome)),
    {
        match self {
            PendingReply::Reverse { original_text, default_lang } => match outcome {
                Ok(response) => {
                    assert(response@[0] == response.translations@[0]@);
                    reverse_line(default_lang.as_str(), response.translations[0].text.as_str())
                },
                Err(_) => reverse_failure(original_text.as_str(), default_lang.as_str()),
            },
            PendingReply::Auxiliary {
                default_lang,
                target_lang,
                primary_text,
                detected_lang,
                ..
            } => match outcome {
                Ok(response) => {
                    assert(response@[0] == response.translations@[0]@);
                    auxiliary_lines(
                        target_lang.as_str(),
                        primary_text.as_str(),
                        default_lang.as_str(),
                        response.translations[0].text.as_str(),
                        detected_lang.as_str(),
                    )
                },
                Err(_) => auxiliary_failure(default_lang.as_str()),
            },
        }
    }
}

/// The reply for a message in a third language reads, in this order: the line
/// of the target language with the primary translation, the line of the
/// default language with the follow-up translation, and the note that names
/// the detected language.
pub proof fn lemma_auxiliary_reply_layout(
    target_lang: Seq<char>,
    primary: Seq<char>,
    default_lang: Seq<char>,
    secondary: Seq<char>,
    detected_lang: Seq<char>,
)
    ensures
        auxiliary_reply(target_lang, primary, default_lang, secondary, detected_lang)
            == reverse_reply(target_lang, primary) + " \n"@ + reverse_reply(default_lang, secondary)
            + " \n(translated"@ + " from `"@ + detected_lang + "`)"@,
{
    let whole = auxiliary_reply(target_lang, primary, default_lang, secondary, detected_lang);
    let parts = reverse_reply(target_lang, primary) + " \n"@ + reverse_reply(
        default_lang,
        secondary,
    ) + " \n(translated"@ + " from `"@ + detected_lang + "`)"@;
    assert(whole =~= parts);
}

/// A message in a third language is translated into the default language as
/// well, and where that succeeds the reply keeps the primary translation: it
/// shows the target language first, the default language second, and names
/// the detected language.
pub proof fn lemma_third_language_shows_both(
    primary: Seq<TranslationView>,
    pair: LanguagePair,
    original_text: Seq<char>,
    secondary: Seq<TranslationView>,
)
    requires
        primary.len() == 1,
        !same_language(primary[0].detected_source_language, pair.target_lang),
        !same_language(primary[0].detected_source_language, pair.default_lang),
        secondary.len() >= 1,
    ensures
        planned(primary, pair, original_text) is Pending,
        follow_up(planned(primary, pair, original_text)->Pending_0) == (RequestView {
            text: original_text,
            target_lang: pair.default_lang,
        }),
        finished(planned(primary, pair, original_text)->Pending_0, Ok(secondary)) == reverse_reply(
            pair.target_lang,
            primary[0].text,
        ) + " \n"@ + reverse_reply(pair.default_lang, secondary[0].text) + " \n(translated"@
            + " from `"@ + primary[0].detected_source_language + "`)"@,
{
    lemma_auxiliary_reply_layout(
        pair.target_lang,
        primary[0].text,
        pair.default_lang,
        secondary[0].text,
        primary[0].detected_source_language,
    );
}

} // verus!
