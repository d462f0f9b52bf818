//! Looking into JSON documents.
use serde_json::Value;
use vstd::prelude::*;

verus! {

/// A parsed JSON document.
#[verifier::external_type_specification]
#[verifier::external_body]
pub struct ExValue(serde_json::Value);

/// Why a text is no JSON document.
#[verifier::external_type_specification]
#[verifier::external_body]
pub struct ExError(serde_json::Error);

/// What a JSON document holds, as far as the library looks into it.
pub enum Json {
    Text { text: Seq<char> },
    Object { members: Map<Seq<char>, Json> },
    Other,
}

/// What a parsed document holds.
pub uninterp spec fn contents(value: Value) -> Json;

/// What `serde_json::from_str` reads from a text; nothing where it refuses the
/// text.
pub uninterp spec fn parsed(text: Seq<char>) -> Option<Json>;

/// `serde_json::from_str`: whether a text is a JSON document, and which one,
/// depends on the text alone.
#[verifier::external_body]
fn parse(text: &str) -> (document: Result<Value, serde_json::Error>)
    ensures
        match document {
            Ok(value) => parsed(text@) == Some(contents(value)),
            Err(_) => parsed(text@) is None,
        },
{
    serde_json::from_str(text)
}

/// `serde_json::Value::get` with a text for an index: the member of that name,
/// where the document is an object that has one.
#[verifier::external_body]
fn member<'a>(document: &'a Value, name: &str) -> (value: Option<&'a Value>)
    ensures
        match value {
            Some(value) => contents(*document) is Object && contents(
                *document,
            )->members.contains_key(name@) && contents(*value) == contents(
                *document,
            )->members[name@],
            None => !(contents(*document) is Object && contents(
                *document,
            )->members.contains_key(name@)),
        },
{
    document.get(name)
}

/// `serde_json::Value::as_str`: the text of a document that is a text.
pub assume_specification[ serde_json::Value::as_str ](value: &Value) -> (chars: Option<&str>)
    ensures
        match chars {
            Some(chars) => contents(*value) == (Json::Text { text: chars@ }),
            None => contents(*value) !is Text,
        },
;

/// What was found under a name in a text that should be a JSON object.
#[derive(Debug, PartialEq, Eq)]
pub enum Reading {
    /// The text is no JSON document.
    NotJson,
    /// The document has no text under that name.
    Missing,
    Text { text: String },
}

/// What a [`Reading`] says.
pub enum ReadingView {
    NotJson,
    Missing,
    Text { text: Seq<char> },
}

impl View for Reading {
    type V = ReadingView;

    open spec fn view(&self) -> ReadingView {
        match self {
            Reading::NotJson => ReadingView::NotJson,
            Reading::Missing => ReadingView::Missing,
            Reading::Text { text } => ReadingView::Text { text: text@ },
        }
    }
}

/// What a document holds under a name.
pub open spec fn reading(document: Option<Json>, name: Seq<char>) -> ReadingView {
    match document {
        None => ReadingView::NotJson,
        Some(Json::Object { members }) => if members.contains_key(name) {
            match members[name] {
                Json::Text { text } => ReadingView::Text { text },
                _ => ReadingView::Missing,
            }
        } else {
            ReadingView::Missing
        },
        Some(_) => ReadingView::Missing,
    }
}

/// Looks for a text under a name in a text that should be a JSON object.
pub fn read_text(source: &str, name: &str) -> (found: Reading)
    ensures
        found@ == reading(parsed(source@), name@),
{
    match parse(source) {
        Ok(document) => match member(&document, name) {
            Some(value) => match value.as_str() {
                Some(text) => Reading::Text { text: text.to_owned() },
                None => Reading::Missing,
            },
            None => Reading::Missing,
        },
        Err(_) => Reading::NotJson,
    }
}

/// What is found under a name is the text that the document's member of that name
/// is, all of it. Another member, or a document that is no object, has no such
/// text; a text that is no document has nothing.
pub proof fn only_texts_are_found(
    members: Map<Seq<char>, Json>,
    name: Seq<char>,
    text: Seq<char>,
    other: Json,
)
    ensures
        members.contains_key(name) && members[name] == (Json::Text { text }) ==> reading(
            Some(Json::Object { members }),
            name,
        ) == (ReadingView::Text { text }),
        !(members.contains_key(name) && members[name] is Text) ==> reading(
            Some(Json::Object { members }),
            name,
        ) is Missing,
        other !is Object ==> reading(Some(other), name) is Missing,
        reading(None, name) is NotJson,
{
}

} // verus!
