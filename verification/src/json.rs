//! JSON documents as plain values.
//!
//! Parsing and string escaping are done by `serde_json`; everything that reads
//! a parsed document works on [`JsonValue`] and is verified.

use vstd::prelude::*;

verus! {

/// A parsed JSON document.
#[derive(Debug, PartialEq, Eq)]
pub enum JsonValue {
    Null,
    Bool(bool),
    /// A number, kept in the decimal notation that `serde_json` prints for it.
    Number(String),
    Text(String),
    Array(Vec<JsonValue>),
    /// The members of an object, each with its key.
    Object(Vec<(String, JsonValue)>),
}

/// The value of the first member called `name`, if there is one.
pub open spec fn member(entries: Seq<(String, JsonValue)>, name: Seq<char>) -> Option<JsonValue>
    decreases entries.len(),
{
    if entries.len() == 0 {
        None
    } else if entries[0].0@ == name {
        Some(entries[0].1)
    } else {
        member(entries.drop_first(), name)
    }
}

/// The member `name` of an object; `None` for a value that is no object or
/// that has no such member.
pub open spec fn field(doc: JsonValue, name: Seq<char>) -> Option<JsonValue> {
    match doc {
        JsonValue::Object(entries) => member(entries@, name),
        _ => None,
    }
}

/// The text of the string member `name` of an object; `None` where the member
/// is missing or is no string.
pub open spec fn text_field(doc: JsonValue, name: Seq<char>) -> Option<Seq<char>> {
    match field(doc, name) {
        Some(JsonValue::Text(s)) => Some(s@),
        _ => None,
    }
}

/// What `serde_json` makes of a text: the document it parses to, or `None`
/// where it rejects the text.
pub uninterp spec fn json_document(text: Seq<char>) -> Option<JsonValue>;

/// The JSON string literal, quotes and escapes included, that `serde_json`
/// writes for a text.
pub uninterp spec fn json_string_literal(text: Seq<char>) -> Seq<char>;

/// The document that a `serde_json::Value` holds.
pub uninterp spec fn json_content(tree: serde_json::Value) -> JsonValue;

/// Declares `serde_json::Value` as an opaque type: a value of it is carried
/// from the parser to [`lift`] and nothing is read out of it in between.
#[verifier::external_type_specification]
#[verifier::external_body]
pub struct ExJsonTree(serde_json::Value);

/// Calls `serde_json::from_str` for a `serde_json::Value`. The contract only
/// names the outcome: the same text always parses to a value with the same
/// content, and a text that `serde_json` rejects gives `None`.
#[verifier::external_body]
fn read_tree(text: &str) -> (r: Option<serde_json::Value>)
    ensures
        match r {
            Some(tree) => json_document(text@) == Some(json_content(tree)),
            None => json_document(text@) is None,
        },
{
    match serde_json::from_str::<serde_json::Value>(text) {
        Ok(tree) => Some(tree),
        Err(_) => None,
    }
}

/// Rewrites a `serde_json::Value` variant by variant as a [`JsonValue`], which
/// is what the contract calls its content. A number is kept as the text that
/// its `Display` impl prints, an object as its members in the order in which
/// the map hands them out.
#[verifier::external_body]
fn lift(tree: serde_json::Value) -> (r: JsonValue)
    ensures
        r == json_content(tree),
{
    match tree {
        serde_json::Value::Null => JsonValue::Null,
        serde_json::Value::Bool(b) => JsonValue::Bool(b),
        serde_json::Value::Number(n) => JsonValue::Number(n.to_string()),
        serde_json::Value::String(s) => JsonValue::Text(s),
        serde_json::Value::Array(items) => JsonValue::Array(items.into_iter().map(lift).collect()),
        serde_json::Value::Object(map) => JsonValue::Object(
            map.into_iter().map(|(k, v)| (k, lift(v))).collect(),
        ),
    }
}

/// Parses a text as a JSON document; `None` where the text is none.
pub fn parse_json(text: &str) -> (r: Option<JsonValue>)
    ensures
        r == json_document(text@),
{
    match read_tree(text) {
        Some(tree) => Some(lift(tree)),
        None => None,
    }
}

/// Calls `serde_json::to_string` on a string slice. Writing a string into
/// memory cannot fail there, so the contract names the literal that comes out.
#[verifier::external_body]
pub(crate) fn quote(text: &str) -> (r: String)
    ensures
        r@ == json_string_literal(text@),
{
    match serde_json::to_string(text) {
        Ok(literal) => literal,
        Err(_) => String::new(),
    }
}

/// Scans the members of an object for the first one called `name`.
fn find_member<'a>(entries: &'a Vec<(String, JsonValue)>, name: &str) -> (r: Option<&'a JsonValue>)
    ensures
        match r {
            Some(v) => member(entries@, name@) == Some(*v),
            None => member(entries@, name@) is None,
        },
{
    let key = name.to_owned();
    let mut i: usize = 0;
    assert(entries@.skip(0) =~= entries@);
    while i < entries.len()
        invariant
            i <= entries.len(),
            key@ == name@,
            member(entries@, name@) == member(entries@.skip(i as int), name@),
        decreases entries.len() - i,
    {
        proof {
            let rest = entries@.skip(i as int);
            assert(rest[0] == entries@[i as int]);
            assert(rest.drop_first() =~= entries@.skip(i + 1));
        }
        if entries[i].0 == key {
            return Some(&entries[i].1);
        }
        i += 1;
    }
    assert(entries@.skip(i as int).len() == 0);
    None
}

impl JsonValue {
    /// Looks up a member of an object by its key.
    pub fn get(&self, name: &str) -> (r: Option<&JsonValue>)
        ensures
            match r {
                Some(v) => field(*self, name@) == Some(*v),
                None => field(*self, name@) is None,
            },
    {
        match self {
            JsonValue::Object(entries) => find_member(entries, name),
            _ => None,
        }
    }

    /// The text of a string member of an object.
    pub fn get_text(&self, name: &str) -> (r: Option<&String>)
        ensures
            match r {
                Some(s) => text_field(*self, name@) == Some(s@),
                None => text_field(*self, name@) is None,
            },
    {
        match self.get(name) {
            Some(JsonValue::Text(s)) => Some(s),
            _ => None,
        }
    }
}

} // verus!
