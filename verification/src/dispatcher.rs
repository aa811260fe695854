//! The handling of one inbound message, step by step.
//!
//! The caller owns the chat session and the network. It feeds [`step`] with
//! what happened and carries out what [`step`] asks for, until the handling is
//! finished. Each message is handled on its own: a step depends on nothing but
//! its arguments.

use crate::client::{TranslationError, TranslationRequest, TranslationResponse, TranslationView, RequestView};
use crate::composer::{
    finished, follow_up, outcome_view, plan_reply, planned, DecisionView, PendingReply,
    PendingView, PlanView, ReplyDecision, ReplyPlan,
};
use crate::composer::{reverse_failure_notice, reverse_reply};
use crate::config::{lemma_resolved_is_total, resolved, ChannelLanguageConfig, LanguagePair};
use crate::lang::{is_language_code, same_language};
use vstd::prelude::*;

verus! {

/// Whether the `url` crate accepts a text as an absolute URL.
pub uninterp spec fn parses_as_url(text: Seq<char>) -> bool;

/// Calls `url::Url::parse` and reports whether it succeeded. The contract only
/// names the outcome: the same text is always judged the same way.
#[verifier::external_body]
fn is_url(text: &str) -> (r: bool)
    ensures
        r == parses_as_url(text@),
{
    url::Url::parse(text).is_ok()
}

/// Why a message is, or is not, translated.
#[derive(Debug, Clone, Copy, PartialEq, Eq, Structural)]
pub enum Screening {
    /// Written by an automated account: ignored.
    Automated,
    /// No text in it: ignored.
    Empty,
    /// Nothing but a link: ignored.
    Link,
    /// To be translated.
    Candidate,
}

/// The screening of a message. The filters apply in this order: automated
/// author, empty content, content that is a link.
pub open spec fn screening(author_is_automated: bool, content: Seq<char>, is_link: bool) -> Screening {
    if author_is_automated {
        Screening::Automated
    } else if content.len() == 0 {
        Screening::Empty
    } else if is_link {
        Screening::Link
    } else {
        Screening::Candidate
    }
}

/// Whether a message is to be translated.
pub open spec fn is_candidate(author_is_automated: bool, content: Seq<char>) -> bool {
    !author_is_automated && content.len() > 0 && !parses_as_url(content)
}

/// Screens a message, given whether its content is a link.
pub fn screen_with(author_is_automated: bool, content: &str, is_link: bool) -> (r: Screening)
    ensures
        r == screening(author_is_automated, content@, is_link),
{
    if author_is_automated {
        Screening::Automated
    } else if content.unicode_len() == 0 {
        Screening::Empty
    } else if is_link {
        Screening::Link
    } else {
        Screening::Candidate
    }
}

/// Screens a message. The content is only examined for a link where the
/// earlier filters let the message pass.
pub fn screen(author_is_automated: bool, content: &str) -> (r: Screening)
    ensures
        r == screening(author_is_automated, content@, parses_as_url(content@)),
        (r == Screening::Candidate) == is_candidate(author_is_automated, content@),
{
    if author_is_automated || content.unicode_len() == 0 {
        screen_with(author_is_automated, content, false)
    } else {
        screen_with(author_is_automated, content, is_url(content))
    }
}

/// What happened, as far as the handling of a message is concerned.
#[derive(Debug, PartialEq, Eq)]
pub enum Event {
    /// The message arrived.
    Message { author_is_automated: bool, content: String },
    /// The channel was looked up: its topic, or `None` where the lookup
    /// failed or the channel has none.
    Topic(Option<String>),
    /// A translation call ended.
    Translated(Result<TranslationResponse, TranslationError>),
}

/// An [`Event`] as a mathematical value.
pub enum EventView {
    Message { author_is_automated: bool, content: Seq<char> },
    Topic(Option<Seq<char>>),
    Translated(Result<Seq<TranslationView>, TranslationError>),
}

impl View for Event {
    type V = EventView;

    open spec fn view(&self) -> EventView {
        match self {
            Event::Message { author_is_automated, content } => EventView::Message {
                author_is_automated: *author_is_automated,
                content: content@,
            },
            Event::Topic(topic) => EventView::Topic(
                match topic {
                    Some(text) => Some(text@),
                    None => None,
                },
            ),
            Event::Translated(outcome) => EventView::Translated(outcome_view(*outcome)),
        }
    }
}

/// What the caller is asked to do next.
#[derive(Debug, PartialEq, Eq)]
pub enum Action {
    /// Nothing: the handling has ended without a reply.
    Nothing,
    /// Look up the topic of the message's channel.
    LookUpTopic,
    /// Issue this translation request.
    Translate(TranslationRequest),
    /// Answer the message with this text; the handling has ended.
    Reply(String),
}

/// An [`Action`] as a mathematical value.
pub enum ActionView {
    Nothing,
    LookUpTopic,
    Translate(RequestView),
    Reply(Seq<char>),
}

impl View for Action {
    type V = ActionView;

    open spec fn view(&self) -> ActionView {
        match self {
            Action::Nothing => ActionView::Nothing,
            Action::LookUpTopic => ActionView::LookUpTopic,
            Action::Translate(request) => ActionView::Translate(request@),
            Action::Reply(text) => ActionView::Reply(text@),
        }
    }
}

/// How far the handling of a message has come.
#[derive(Debug, PartialEq, Eq)]
pub enum Handling {
    /// Nothing has happened yet.
    Idle,
    /// Waiting for the topic of the channel.
    AwaitingTopic { content: String },
    /// Waiting for the translation into the target language.
    AwaitingPrimary { content: String, config: ChannelLanguageConfig },
    /// Waiting for the translation into the default language.
    AwaitingReverse { pending: PendingReply },
    /// Done: nothing more will be asked for.
    Finished,
}

/// A [`Handling`] as a mathematical value.
pub enum HandlingView {
    Idle,
    AwaitingTopic { content: Seq<char> },
    AwaitingPrimary { content: Seq<char>, pair: LanguagePair },
    AwaitingReverse { pending: PendingView },
    Finished,
}

impl View for Handling {
    type V = HandlingView;

    open spec fn view(&self) -> HandlingView {
        match self {
            Handling::Idle => HandlingView::Idle,
            Handling::AwaitingTopic { content } => HandlingView::AwaitingTopic {
                content: content@,
            },
            Handling::AwaitingPrimary { content, config } => HandlingView::AwaitingPrimary {
                content: content@,
                pair: config@,
            },
            Handling::AwaitingReverse { pending } => HandlingView::AwaitingReverse {
                pending: pending@,
            },
            Handling::Finished => HandlingView::Finished,
        }
    }
}

/// The notice sent where the translation into the target language failed.
pub open spec fn failure_notice() -> Seq<char> {
    "Failed to translate using DeepL"@
}

/// An event can be handled unless it reports a successful translation call
/// that brought no translation at all.
pub open spec fn admissible(event: EventView) -> bool {
    event matches EventView::Translated(Ok(translations)) ==> translations.len() >= 1
}

/// The step that the primary translation leads to.
pub open spec fn after_primary(
    content: Seq<char>,
    pair: LanguagePair,
    outcome: Result<Seq<TranslationView>, TranslationError>,
) -> (HandlingView, ActionView) {
    match outcome {
        Ok(translations) => match planned(translations, pair, content) {
            PlanView::Settled(DecisionView::Suppressed) => (
                HandlingView::Finished,
                ActionView::Nothing,
            ),
            PlanView::Settled(DecisionView::Reply(text)) => (
                HandlingView::Finished,
                ActionView::Reply(text),
            ),
            PlanView::Pending(pending) => (
                HandlingView::AwaitingReverse { pending: pending },
                ActionView::Translate(follow_up(pending)),
            ),
        },
        Err(_) => (HandlingView::Finished, ActionView::Reply(failure_notice())),
    }
}

/// The state that follows and the action to take, for a state and an event.
/// An event that the state does not wait for ends the handling silently.
pub open spec fn next(state: HandlingView, event: EventView, defaults: LanguagePair) -> (
    HandlingView,
    ActionView,
) {
    match (state, event) {
        (HandlingView::Idle, EventView::Message { author_is_automated, content }) => {
            if is_candidate(author_is_automated, content) {
                (HandlingView::AwaitingTopic { content: content }, ActionView::LookUpTopic)
            } else {
                (HandlingView::Finished, ActionView::Nothing)
            }
        },
        (HandlingView::AwaitingTopic { content }, EventView::Topic(topic)) => {
            let pair = resolved(topic, defaults);
            (
                HandlingView::AwaitingPrimary { content: content, pair: pair },
                ActionView::Translate(RequestView { text: content, target_lang: pair.target_lang }),
            )
        },
        (HandlingView::AwaitingPrimary { content, pair }, EventView::Translated(outcome)) => {
            after_primary(content, pair, outcome)
        },
        (HandlingView::AwaitingReverse { pending }, EventView::Translated(outcome)) => (
            HandlingView::Finished,
            ActionView::Reply(finished(pending, outcome)),
        ),
        _ => (HandlingView::Finished, ActionView::Nothing),
    }
}

fn primary_step(
    content: String,
    config: ChannelLanguageConfig,
    outcome: Result<TranslationResponse, TranslationError>,
) -> (r: (Handling, Action))
    requires
        outcome matches Ok(response) ==> response@.len() >= 1,
    ensures
        (r.0@, r.1@) == after_primary(content@, config@, outcome_view(outcome)),
{
    match outcome {
        Ok(response) => match plan_reply(&response, &config, content.as_str()) {
            ReplyPlan::Settled(ReplyDecision::Suppressed) => (Handling::Finished, Action::Nothing),
            ReplyPlan::Settled(ReplyDecision::Reply(text)) => (
                Handling::Finished,
                Action::Reply(text),
            ),
            ReplyPlan::Pending(pending) => {
                let request = pending.request();
                (Handling::AwaitingReverse { pending }, Action::Translate(request))
            },
        },
        Err(_) => (
            Handling::Finished,
            Action::Reply(String::from_str("Failed to translate using DeepL")),
        ),
    }
}

/// Takes the handling of a message one step further.
///
/// A message that the filters reject ends the handling at once. A candidate
/// has its channel's topic looked up, is translated into the target language
/// of the pair resolved from the topic, and is answered as the routing
/// decision says; a failure of that first translation is answered with a fixed
/// notice.
pub fn step(state: Handling, event: Event, defaults: &ChannelLanguageConfig) -> (r: (
    Handling,
    Action,
))
    requires
        admissible(event@),
    ensures
        (r.0@, r.1@) == next(state@, event@, defaults@),
{
    match (state, event) {
        (Handling::Idle, Event::Message { author_is_automated, content }) => {
            match screen(author_is_automated, content.as_str()) {
                Screening::Candidate => (Handling::AwaitingTopic { content }, Action::LookUpTopic),
                _ => (Handling::Finished, Action::Nothing),
            }
        },
        (Handling::AwaitingTopic { content }, Event::Topic(topic)) => {
            let config = match &topic {
                Some(text) => ChannelLanguageConfig::resolve(Some(text.as_str()), defaults),
                None => ChannelLanguageConfig::resolve(None, defaults),
            };
            let request = TranslationRequest::new(content.as_str(), config.target_lang());
            (Handling::AwaitingPrimary { content, config }, Action::Translate(request))
        },
        (Handling::AwaitingPrimary { content, config }, Event::Translated(outcome)) => {
            primary_step(content, config, outcome)
        },
        (Handling::AwaitingReverse { pending }, Event::Translated(outcome)) => {
            let text = pending.finish(&outcome);
            (Handling::Finished, Action::Reply(text))
        },
        _ => (Handling::Finished, Action::Nothing),
    }
}

/// How many translation requests and replies a run has asked for.
pub struct Tally {
    pub translations: nat,
    pub replies: nat,
}

/// What one action adds to the tally.
pub open spec fn tally_of(action: ActionView) -> Tally {
    match action {
        ActionView::Translate(_) => Tally { translations: 1, replies: 0 },
        ActionView::Reply(_) => Tally { translations: 0, replies: 1 },
        _ => Tally { translations: 0, replies: 0 },
    }
}

/// The tally of a run: the handling starts in `state` and is fed `events` in
/// order.
pub open spec fn tally(state: HandlingView, events: Seq<EventView>, defaults: LanguagePair) -> Tally
    decreases events.len(),
{
    if events.len() == 0 {
        Tally { translations: 0, replies: 0 }
    } else {
        let (after, action) = next(state, events[0], defaults);
        let first = tally_of(action);
        let rest = tally(after, events.drop_first(), defaults);
        Tally {
            translations: first.translations + rest.translations,
            replies: first.replies + rest.replies,
        }
    }
}

/// A state that the handling of a message can be in: the text under
/// translation is not empty and every language code is canonical.
pub open spec fn coherent(state: HandlingView) -> bool {
    match state {
        HandlingView::AwaitingTopic { content } => content.len() > 0,
        HandlingView::AwaitingPrimary { content, pair } => {
            &&& content.len() > 0
            &&& is_language_code(pair.default_lang)
            &&& is_language_code(pair.target_lang)
        },
        HandlingView::AwaitingReverse { pending } => {
            &&& follow_up(pending).text.len() > 0
            &&& is_language_code(follow_up(pending).target_lang)
        },
        _ => true,
    }
}

/// Once the handling is finished, no event makes it ask for anything.
pub proof fn lemma_finished_is_final(events: Seq<EventView>, defaults: LanguagePair)
    ensures
        tally(HandlingView::Finished, events, defaults) == (Tally { translations: 0, replies: 0 }),
    decreases events.len(),
{
    if events.len() > 0 {
        lemma_finished_is_final(events.drop_first(), defaults);
    }
}

/// Whatever happens, one message costs at most two translation requests and
/// gets at most one reply; once the follow-up translation is awaited, no
/// further request is issued.
pub proof fn lemma_handling_is_bounded(
    state: HandlingView,
    events: Seq<EventView>,
    defaults: LanguagePair,
)
    ensures
        tally(state, events, defaults).replies <= 1,
        tally(state, events, defaults).translations <= 2,
        state is AwaitingPrimary ==> tally(state, events, defaults).translations <= 1,
        state is AwaitingReverse ==> tally(state, events, defaults).translations == 0,
    decreases events.len(),
{
    if events.len() > 0 {
        let (after, action) = next(state, events[0], defaults);
        lemma_handling_is_bounded(after, events.drop_first(), defaults);
        lemma_finished_is_final(events.drop_first(), defaults);
    }
}

/// A message from an automated account, an empty message and a message that
/// is a link end the handling at once: whatever events follow, no translation
/// is requested and no reply is sent.
pub proof fn lemma_rejected_message_is_silent(
    author_is_automated: bool,
    content: Seq<char>,
    later: Seq<EventView>,
    defaults: LanguagePair,
)
    requires
        author_is_automated || content.len() == 0 || parses_as_url(content),
    ensures
        next(
            HandlingView::Idle,
            EventView::Message { author_is_automated, content },
            defaults,
        ) == (HandlingView::Finished, ActionView::Nothing),
        tally(
            HandlingView::Idle,
            seq![EventView::Message { author_is_automated, content }] + later,
            defaults,
        ) == (Tally { translations: 0, replies: 0 }),
{
    let events = seq![EventView::Message { author_is_automated, content }] + later;
    assert(events.drop_first() =~= later);
    lemma_finished_is_final(later, defaults);
}

/// A primary answer with more than one translation ends the handling without
/// a reply and without a further request.
pub proof fn lemma_anomaly_is_silent(
    content: Seq<char>,
    pair: LanguagePair,
    translations: Seq<TranslationView>,
    later: Seq<EventView>,
    defaults: LanguagePair,
)
    requires
        translations.len() > 1,
    ensures
        next(
            HandlingView::AwaitingPrimary { content, pair },
            EventView::Translated(Ok(translations)),
            defaults,
        ) == (HandlingView::Finished, ActionView::Nothing),
        tally(
            HandlingView::AwaitingPrimary { content, pair },
            seq![EventView::Translated(Ok(translations))] + later,
            defaults,
        ) == (Tally { translations: 0, replies: 0 }),
{
    let events = seq![EventView::Translated(Ok(translations))] + later;
    assert(events.drop_first() =~= later);
    lemma_finished_is_final(later, defaults);
}

/// A failure of the primary translation, of whatever kind, is answered with
/// the fixed notice, and with nothing else: exactly one reply, no further
/// request.
pub proof fn lemma_failed_primary_gets_one_notice(
    content: Seq<char>,
    pair: LanguagePair,
    error: TranslationError,
    later: Seq<EventView>,
    defaults: LanguagePair,
)
    ensures
        next(
            HandlingView::AwaitingPrimary { content, pair },
            EventView::Translated(Err(error)),
            defaults,
        ) == (HandlingView::Finished, ActionView::Reply(failure_notice())),
        tally(
            HandlingView::AwaitingPrimary { content, pair },
            seq![EventView::Translated(Err(error))] + later,
            defaults,
        ) == (Tally { translations: 0, replies: 1 }),
{
    let events = seq![EventView::Translated(Err(error))] + later;
    assert(events.drop_first() =~= later);
    lemma_finished_is_final(later, defaults);
}

/// A message that was already written in the target language is translated
/// into the default language exactly once. Whether that call succeeds or
/// fails, its outcome is answered with one reply, and nothing is tried again.
pub proof fn lemma_reverse_is_attempted_once(
    content: Seq<char>,
    pair: LanguagePair,
    translations: Seq<TranslationView>,
    outcome: Result<Seq<TranslationView>, TranslationError>,
    later: Seq<EventView>,
    defaults: LanguagePair,
)
    requires
        translations.len() == 1,
        same_language(translations[0].detected_source_language, pair.target_lang),
        admissible(EventView::Translated(outcome)),
    ensures
        next(
            HandlingView::AwaitingPrimary { content, pair },
            EventView::Translated(Ok(translations)),
            defaults,
        ).1 == ActionView::Translate(
            RequestView { text: content, target_lang: pair.default_lang },
        ),
        tally(
            HandlingView::AwaitingPrimary { content, pair },
            seq![EventView::Translated(Ok(translations)), EventView::Translated(outcome)] + later,
            defaults,
        ) == (Tally { translations: 1, replies: 1 }),
        next(
            next(
                HandlingView::AwaitingPrimary { content, pair },
                EventView::Translated(Ok(translations)),
                defaults,
            ).0,
            EventView::Translated(outcome),
            defaults,
        ) == (
            HandlingView::Finished,
            ActionView::Reply(
                match outcome {
                    Ok(reverse) => reverse_reply(pair.default_lang, reverse[0].text),
                    Err(_) => reverse_failure_notice(content, pair.default_lang),
                },
            ),
        ),
{
    let first = EventView::Translated(Ok(translations));
    let second = EventView::Translated(outcome);
    let events = seq![first, second] + later;
    let tail = seq![second] + later;
    assert(events.drop_first() =~= tail);
    assert(tail.drop_first() =~= later);
    lemma_finished_is_final(later, defaults);
    let start = HandlingView::AwaitingPrimary { content, pair };
    let waiting = next(start, first, defaults).0;
    assert(tally(waiting, tail, defaults) == (Tally { translations: 0, replies: 1 }));
}

/// The handling only ever passes through coherent states, and every request
/// that it issues carries a non-empty text and a canonical language code.
pub proof fn lemma_step_keeps_coherence(
    state: HandlingView,
    event: EventView,
    defaults: LanguagePair,
)
    requires
        coherent(state),
        is_language_code(defaults.default_lang),
        is_language_code(defaults.target_lang),
    ensures
        coherent(next(state, event, defaults).0),
        next(state, event, defaults).1 matches ActionView::Translate(request) ==> {
            &&& request.text.len() > 0
            &&& is_language_code(request.target_lang)
        },
{
    match (state, event) {
        (HandlingView::AwaitingTopic { content }, EventView::Topic(topic)) => {
            lemma_resolved_is_total(topic, defaults);
        },
        _ => {},
    }
}

} // verus!
