//! The translation service as the relay sees it: what a request says, and how
//! the outcome of the HTTP exchange is read.

use crate::json::{field, json_document, json_string_literal, parse_json, quote, text_field, JsonValue};
use vstd::prelude::*;

verus! {

/// One translated text with the language that the service detected in the
/// source.
#[derive(Debug, PartialEq, Eq)]
pub struct Translation {
    pub text: String,
    pub detected_source_language: String,
}

/// A [`Translation`] as mathematical texts.
pub struct TranslationView {
    pub text: Seq<char>,
    pub detected_source_language: Seq<char>,
}

impl View for Translation {
    type V = TranslationView;

    open spec fn view(&self) -> TranslationView {
        TranslationView {
            text: self.text@,
            detected_source_language: self.detected_source_language@,
        }
    }
}

/// What the service answered to one request. A request carries one text, so
/// one translation is expected; the list is kept as it came.
#[derive(Debug, PartialEq, Eq)]
pub struct TranslationResponse {
    pub translations: Vec<Translation>,
}

impl View for TranslationResponse {
    type V = Seq<TranslationView>;

    open spec fn view(&self) -> Seq<TranslationView> {
        self.translations@.map_values(|t: Translation| t@)
    }
}

/// Why a translation call gave no result.
#[derive(Debug, Clone, Copy, PartialEq, Eq, Structural)]
pub enum TranslationError {
    /// The service answered with a status outside 200..=299.
    Remote(u16),
    /// The service could not be reached.
    Connectivity,
    /// The answer was not a translation document.
    Decode,
}

/// A request to translate one text into one language.
#[derive(Debug, PartialEq, Eq)]
pub struct TranslationRequest {
    pub text: String,
    pub target_lang: String,
}

/// A [`TranslationRequest`] as mathematical texts.
pub struct RequestView {
    pub text: Seq<char>,
    pub target_lang: Seq<char>,
}

impl View for TranslationRequest {
    type V = RequestView;

    open spec fn view(&self) -> RequestView {
        RequestView { text: self.text@, target_lang: self.target_lang@ }
    }
}

/// How the HTTP exchange with the service ended.
#[derive(Debug, PartialEq, Eq)]
pub enum HttpOutcome {
    /// The service answered.
    Answered { status: u16, body: String },
    /// No answer arrived: resolution, connection, TLS or timeout failure.
    Unreachable,
}

/// The JSON body of a request: an object with the text as the only item of
/// the array `text`, and the language as `target_lang`.
pub open spec fn request_body(text: Seq<char>, target_lang: Seq<char>) -> Seq<char> {
    "{\"text\":["@ + json_string_literal(text) + "],\"target_lang\":"@ + json_string_literal(
        target_lang,
    ) + "}"@
}

/// The value of the `Authorization` header for a credential.
pub open spec fn authorization_value(credential: Seq<char>) -> Seq<char> {
    "DeepL-Auth-Key "@ + credential
}

/// The translation that one item of the answer's array holds: the item must be
/// an object with the string members `text` and `detected_source_language`.
pub open spec fn translation_of(item: JsonValue) -> Option<TranslationView> {
    match (text_field(item, "text"@), text_field(item, "detected_source_language"@)) {
        (Some(text), Some(lang)) => Some(
            TranslationView { text: text, detected_source_language: lang },
        ),
        _ => None,
    }
}

/// The translations that an array of items holds, in order; `None` where an
/// item holds none.
pub open spec fn translations_of(items: Seq<JsonValue>) -> Option<Seq<TranslationView>> {
    if forall|i: int| 0 <= i < items.len() ==> (#[trigger] translation_of(items[i])) is Some {
        Some(Seq::new(items.len(), |i: int| translation_of(items[i])->0))
    } else {
        None
    }
}

/// The translations that an answer document holds: the document must be an
/// object whose member `translations` is an array of translations.
pub open spec fn response_of(doc: JsonValue) -> Option<Seq<TranslationView>> {
    match field(doc, "translations"@) {
        Some(JsonValue::Array(items)) => translations_of(items@),
        _ => None,
    }
}

/// The line that shows one translation: the detected language, then the text.
pub open spec fn line_of(translation: TranslationView) -> Seq<char> {
    "`"@ + translation.detected_source_language + ":` "@ + translation.text
}

/// The lines of a list of translations, one per translation, separated by
/// line breaks.
pub open spec fn lines_of(translations: Seq<TranslationView>) -> Seq<char>
    decreases translations.len(),
{
    if translations.len() == 0 {
        Seq::empty()
    } else if translations.len() == 1 {
        line_of(translations[0])
    } else {
        lines_of(translations.drop_last()) + "\n"@ + line_of(translations.last())
    }
}

/// What an answer's body decodes to.
pub open spec fn decoded(body: Seq<char>) -> Result<Seq<TranslationView>, TranslationError> {
    match json_document(body) {
        Some(doc) => match response_of(doc) {
            Some(translations) => Ok(translations),
            None => Err(TranslationError::Decode),
        },
        None => Err(TranslationError::Decode),
    }
}

/// Whether a status code reports success.
pub open spec fn is_success(status: u16) -> bool {
    200 <= status && status < 300
}

/// The result of a translation call, given how the HTTP exchange ended.
pub open spec fn interpreted(outcome: HttpOutcome) -> Result<
    Seq<TranslationView>,
    TranslationError,
> {
    match outcome {
        HttpOutcome::Unreachable => Err(TranslationError::Connectivity),
        HttpOutcome::Answered { status, body } => if is_success(status) {
            decoded(body@)
        } else {
            Err(TranslationError::Remote(status))
        },
    }
}

/// Whether an exec result stands for a spec result.
pub open spec fn result_matches(
    r: Result<TranslationResponse, TranslationError>,
    expected: Result<Seq<TranslationView>, TranslationError>,
) -> bool {
    match r {
        Ok(response) => expected == Ok::<Seq<TranslationView>, TranslationError>(response@),
        Err(e) => expected == Err::<Seq<TranslationView>, TranslationError>(e),
    }
}

/// The address that requests are posted to.
pub fn endpoint() -> (r: &'static str)
    ensures
        r@ == "https://api.deepl.com/v2/translate"@,
{
    "https://api.deepl.com/v2/translate"
}

/// The value of the `Authorization` header that carries the credential.
pub fn authorization(credential: &str) -> (r: String)
    ensures
        r@ == authorization_value(credential@),
{
    let mut value = String::from_str("DeepL-Auth-Key ");
    value.append(credential);
    value
}

fn translation_from(item: &JsonValue) -> (r: Option<Translation>)
    ensures
        match r {
            Some(t) => translation_of(*item) == Some(t@),
            None => translation_of(*item) is None,
        },
{
    match (item.get_text("text"), item.get_text("detected_source_language")) {
        (Some(text), Some(lang)) => Some(
            Translation { text: text.clone(), detected_source_language: lang.clone() },
        ),
        _ => None,
    }
}

impl TranslationRequest {
    /// A request for one text and one target language.
    pub fn new(text: &str, target_lang: &str) -> (r: Self)
        ensures
            r@.text == text@,
            r@.target_lang == target_lang@,
    {
        TranslationRequest { text: text.to_owned(), target_lang: target_lang.to_owned() }
    }

    /// The JSON body to post for this request. The text travels as the single
    /// item of an array.
    pub fn body(&self) -> (r: String)
        ensures
            r@ == request_body(self@.text, self@.target_lang),
    {
        let mut out = String::from_str("{\"text\":[");
        let text = quote(self.text.as_str());
        out.append(text.as_str());
        out.append("],\"target_lang\":");
        let lang = quote(self.target_lang.as_str());
        out.append(lang.as_str());
        out.append("}");
        out
    }
}

impl TranslationResponse {
    /// Reads the translations out of a parsed answer.
    pub fn from_document(doc: &JsonValue) -> (r: Option<Self>)
        ensures
            match r {
                Some(response) => response_of(*doc) == Some(response@),
                None => response_of(*doc) is None,
            },
    {
        let items = match doc.get("translations") {
            Some(JsonValue::Array(items)) => items,
            _ => {
                return None;
            },
        };
        let mut translations: Vec<Translation> = Vec::new();
        let mut i: usize = 0;
        while i < items.len()
            invariant
                i <= items.len(),
                translations@.len() == i,
                field(*doc, "translations"@) == Some(JsonValue::Array(*items)),
                forall|j: int| 0 <= j < i ==> (#[trigger] translation_of(items@[j])) is Some,
                forall|j: int|
                    0 <= j < i ==> translations@[j]@ == (#[trigger] translation_of(items@[j]))->0,
            decreases items.len() - i,
        {
            match translation_from(&items[i]) {
                Some(t) => {
                    translations.push(t);
                },
                None => {
                    assert(translation_of(items@[i as int]) is None);
                    return None;
                },
            }
            i += 1;
        }
        let response = TranslationResponse { translations };
        assert(response@ =~= translations_of(items@)->0);
        Some(response)
    }

    /// The translations as text: one line each, with the detected language in
    /// front.
    pub fn to_text(&self) -> (r: String)
        ensures
            r@ == lines_of(self@),
    {
        let mut out = String::new();
        let mut i: usize = 0;
        while i < self.translations.len()
            invariant
                i <= self.translations.len(),
                out@ == lines_of(self@.take(i as int)),
            decreases self.translations.len() - i,
        {
            let t = &self.translations[i];
            proof {
                let upto = self@.take(i + 1);
                assert(upto.drop_last() =~= self@.take(i as int));
                assert(upto.last() == t@);
            }
            if i > 0 {
                out.append("\n");
            }
            out.append("`");
            out.append(t.detected_source_language.as_str());
            out.append(":` ");
            out.append(t.text.as_str());
            proof {
                let line = line_of(t@);
                let before = lines_of(self@.take(i as int));
                if i > 0 {
                    assert(out@ =~= before + "\n"@ + line);
                } else {
                    assert(out@ =~= line);
                }
            }
            i += 1;
        }
        assert(self@.take(i as int) =~= self@);
        out
    }

    /// Decodes the body of a successful answer.
    pub fn decode(body: &str) -> (r: Result<Self, TranslationError>)
        ensures
            result_matches(r, decoded(body@)),
    {
        match parse_json(body) {
            Some(doc) => match TranslationResponse::from_document(&doc) {
                Some(response) => Ok(response),
                None => Err(TranslationError::Decode),
            },
            None => Err(TranslationError::Decode),
        }
    }

    /// Classifies the end of an HTTP exchange: no answer is a connectivity
    /// error, a status outside 200..=299 a remote error with that status, and
    /// a successful answer is decoded.
    pub fn interpret(outcome: &HttpOutcome) -> (r: Result<Self, TranslationError>)
        ensures
            result_matches(r, interpreted(*outcome)),
            *outcome is Unreachable ==> r == Err::<Self, TranslationError>(
                TranslationError::Connectivity,
            ),
            *outcome matches HttpOutcome::Answered { status, .. } ==> (!is_success(status) ==> r
                == Err::<Self, TranslationError>(TranslationError::Remote(status))),
    {
        match outcome {
            HttpOutcome::Unreachable => Err(TranslationError::Connectivity),
            HttpOutcome::Answered { status, body } => {
                if 200 <= *status && *status < 300 {
                    TranslationResponse::decode(body.as_str())
                } else {
                    Err(TranslationError::Remote(*status))
                }
            },
        }
    }
}

} // verus!
