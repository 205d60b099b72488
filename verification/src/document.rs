//! The parameter document of the speech synthesiser.
//!
//! The synthesiser hands out a JSON object whose members it alone
//! understands. The assistant treats it as an open set of named members,
//! replaces one of them and hands the rest back as they came.

use vstd::prelude::*;

verus! {

#[verifier::external_type_specification]
#[verifier::external_body]
pub struct ExJsonValue(serde_json::Value);

#[verifier::external_type_specification]
#[verifier::external_body]
pub struct ExJsonError(serde_json::Error);

#[verifier::external_type_specification]
#[verifier::external_body]
#[verifier::reject_recursive_types(K)]
#[verifier::reject_recursive_types(V)]
pub struct ExJsonMap<K, V>(serde_json::Map<K, V>);

/// What a JSON object holds: the name of each member with the compact JSON
/// text of its value.
pub uninterp spec fn members(object: serde_json::Map<String, serde_json::Value>) -> Map<
    Seq<char>,
    Seq<char>,
>;

/// The members of the JSON object that `text` denotes; `None` where `text` is
/// not the JSON text of an object.
pub uninterp spec fn object_members(text: Seq<char>) -> Option<Map<Seq<char>, Seq<char>>>;

/// The compact JSON text of the string `value`: quoted and escaped.
pub uninterp spec fn string_text(value: Seq<char>) -> Seq<char>;

/// The compact JSON text of the object with the given members.
pub uninterp spec fn object_text(members: Map<Seq<char>, Seq<char>>) -> Seq<char>;

/// `serde_json::from_str`, asked for a `serde_json::Map`. It accepts the text
/// of a JSON object and nothing else, and what it builds depends on the text
/// alone. A name that occurs twice keeps its last value.
#[verifier::external_body]
fn read_object(text: &str) -> (object: Result<
    serde_json::Map<String, serde_json::Value>,
    serde_json::Error,
>)
    ensures
        object matches Ok(o) ==> object_members(text@) == Some(members(o)),
        object is Err ==> object_members(text@) is None,
{
    serde_json::from_str::<serde_json::Map<String, serde_json::Value>>(text)
}

/// `serde_json::Map::insert` with a `serde_json::Value::String`: the member
/// `name` is added, or replaced where the object had it, and every other
/// member stays as it was.
#[verifier::external_body]
fn put_string(object: &mut serde_json::Map<String, serde_json::Value>, name: &str, value: &str)
    ensures
        members(*final(object)) == members(*old(object)).insert(name@, string_text(value@)),
{
    object.insert(name.to_string(), serde_json::Value::String(value.to_string()));
}

/// `to_string` of a `serde_json::Value::Object`: the compact JSON text, which
/// the members determine (the map is kept in the order of its keys).
#[verifier::external_body]
fn write_object(object: serde_json::Map<String, serde_json::Value>) -> (text: String)
    ensures
        text@ == object_text(members(object)),
{
    serde_json::Value::Object(object).to_string()
}

/// The member that sets how fast the synthesiser speaks.
pub const SPEED_SCALE_MEMBER: &'static str = "speedScale";

/// The speed the assistant always asks for.
pub const SPEED_SCALE: &'static str = "1.3";

/// The text is not a JSON object.
#[derive(Debug, PartialEq, Eq, Clone, Copy)]
pub struct NotAnObject;

/// An audio query: the synthesiser's parameters for one utterance.
pub struct AudioQuery {
    fields: serde_json::Map<String, serde_json::Value>,
}

impl View for AudioQuery {
    type V = Map<Seq<char>, Seq<char>>;

    /// The members of the document, each value by its compact JSON text.
    closed spec fn view(&self) -> Map<Seq<char>, Seq<char>> {
        members(self.fields)
    }
}

/// The members of `query` with the speed member set to the fixed speed.
pub open spec fn with_fixed_speed(query: Map<Seq<char>, Seq<char>>) -> Map<Seq<char>, Seq<char>> {
    query.insert(SPEED_SCALE_MEMBER@, string_text(SPEED_SCALE@))
}

/// The body of the synthesis request that answers the audio query `text`;
/// `None` where `text` is no JSON object.
pub open spec fn synthesis_body(text: Seq<char>) -> Option<Seq<char>> {
    match object_members(text) {
        Some(query) => Some(object_text(with_fixed_speed(query))),
        None => None,
    }
}

impl AudioQuery {
    /// Reads the document that the synthesiser sent.
    ///
    /// The document is a JSON object. Anything else is refused, and that
    /// includes `null`: an audio query is a set of named members, and
    /// `null` names none, so it is no more a query than a number is.
    pub fn parse(text: &str) -> (parsed: Result<AudioQuery, NotAnObject>)
        ensures
            match object_members(text@) {
                Some(query) => parsed matches Ok(document) && document@ == query,
                None => parsed is Err,
            },
    {
        match read_object(text) {
            Ok(fields) => Ok(AudioQuery { fields }),
            Err(_) => Err(NotAnObject),
        }
    }

    /// The same document with the speed member set to the fixed speed,
    /// whatever it was before and whether or not it was there. No other
    /// member changes.
    pub fn with_speed_scale(self) -> (patched: AudioQuery)
        ensures
            patched@ == with_fixed_speed(self@),
            patched@.dom() == self@.dom().insert(SPEED_SCALE_MEMBER@),
            patched@[SPEED_SCALE_MEMBER@] == string_text(SPEED_SCALE@),
            forall|name: Seq<char>|
                name != SPEED_SCALE_MEMBER@ && self@.contains_key(name) ==> #[trigger] patched@[name]
                    == self@[name],
    {
        let mut fields = self.fields;
        put_string(&mut fields, SPEED_SCALE_MEMBER, SPEED_SCALE);
        AudioQuery { fields }
    }

    /// The compact JSON text of the document.
    pub fn render(self) -> (text: String)
        ensures
            text@ == object_text(self@),
    {
        write_object(self.fields)
    }
}

/// Turns the synthesiser's answer to an audio query into the body of the
/// synthesis request: the same document with the speed member overridden.
pub fn patch_audio_query(text: &str) -> (body: Result<String, NotAnObject>)
    ensures
        match synthesis_body(text@) {
            Some(expected) => body matches Ok(b) && b@ == expected,
            None => body is Err,
        },
{
    match AudioQuery::parse(text) {
        Ok(document) => Ok(document.with_speed_scale().render()),
        Err(e) => Err(e),
    }
}

} // verus!
