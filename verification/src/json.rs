//! JSON objects as `serde_json` holds them, and what this crate relies on
//! when it fills, prints, parses and reads one. Nothing in this file is
//! proved: each item states what `serde_json` is trusted to do.

use vstd::prelude::*;

verus! {

/// `serde_json::Map`, the JSON object. Its inside is not looked at: what it
/// holds is told by `members`.
#[verifier::external_type_specification]
#[verifier::external_body]
#[verifier::reject_recursive_types(K)]
#[verifier::reject_recursive_types(V)]
pub struct ExJsonMap<K, V>(serde_json::Map<K, V>);

/// `serde_json::Value`, any JSON value. It is only carried.
#[verifier::external_type_specification]
#[verifier::external_body]
pub struct ExJsonValue(serde_json::Value);

/// `serde_json::Error`, the error of a parse. It is only carried.
#[verifier::external_type_specification]
#[verifier::external_body]
pub struct ExJsonError(serde_json::Error);

/// What a JSON object holds under one key.
pub enum Member {
    /// A JSON string, with its characters.
    Text(Seq<char>),
    /// A JSON number that is an integer in the range of `i64`.
    Integer(i64),
    /// Any other JSON value, told apart by its compact JSON text.
    Other(Seq<char>),
}

/// The members of a `serde_json::Map`, by key: what `get` finds under each.
pub uninterp spec fn members(object: serde_json::Map<String, serde_json::Value>) -> Map<Seq<char>, Member>;

/// The compact JSON text that `serde_json::Value`'s `to_string` gives for an
/// object with these members. The keys come in their sorted order, so the
/// text is the same however the object was filled.
pub uninterp spec fn object_text(members: Map<Seq<char>, Member>) -> Seq<char>;

/// The members of the object that `serde_json::from_str` reads from a text,
/// or `None` where it reports an error.
pub uninterp spec fn parsed_object(text: Seq<char>) -> Option<Map<Seq<char>, Member>>;

/// The members of an empty object.
pub open spec fn no_members() -> Map<Seq<char>, Member> {
    Map::empty()
}

/// `serde_json::Map::new`: an object without members.
#[verifier::external_body]
pub(crate) fn new_object() -> (res: serde_json::Map<String, serde_json::Value>)
    ensures
        members(res) == no_members(),
{
    serde_json::Map::new()
}

/// A string or a whole number on its way into a JSON object.
pub(crate) enum Scalar<'a> {
    Text(&'a str),
    Integer(i64),
}

/// What an object holds under a key once a string or number was put there.
pub(crate) open spec fn member_for(value: Scalar) -> Member {
    match value {
        Scalar::Text(text) => Member::Text(text@),
        Scalar::Integer(number) => Member::Integer(number),
    }
}

/// What a JSON object held under a key that was looked up.
pub(crate) enum Found {
    /// The object has no such key.
    Absent,
    /// A JSON string.
    Text(String),
    /// A JSON number that is an integer in the range of `i64`.
    Integer(i64),
    /// Any other JSON value.
    Other,
}

/// `serde_json::Map::insert`, with the string or number made a
/// `serde_json::Value` first: the key holds the value afterwards, whether or
/// not it was present, and no other key changes.
#[verifier::external_body]
pub(crate) fn put(object: &mut serde_json::Map<String, serde_json::Value>, key: &str, value: Scalar<'_>)
    ensures
        members(*final(object)) == members(*old(object)).insert(key@, member_for(value)),
{
    let value = match value {
        Scalar::Text(text) => serde_json::Value::String(text.to_owned()),
        Scalar::Integer(number) => serde_json::Value::from(number),
    };
    object.insert(key.to_owned(), value);
}

/// `to_string` of the `serde_json::Value` that is this object: its compact
/// JSON text, a function of the members alone.
#[verifier::external_body]
pub(crate) fn render(object: serde_json::Map<String, serde_json::Value>) -> (text: String)
    ensures
        text@ == object_text(members(object)),
{
    serde_json::Value::Object(object).to_string()
}

/// `serde_json::from_str` for an object: the outcome is a function of the
/// text alone.
#[verifier::external_body]
pub(crate) fn parse(text: &str) -> (res: Result<serde_json::Map<String, serde_json::Value>, serde_json::Error>)
    ensures
        match res {
            Ok(object) => parsed_object(text@) == Some(members(object)),
            Err(_) => parsed_object(text@) is None,
        },
{
    serde_json::from_str(text)
}

/// `serde_json::Map::get`, with the value found told apart by its kind
/// (`Value::as_i64` says which numbers are integers in the range of `i64`):
/// what the object holds under `key`.
#[verifier::external_body]
pub(crate) fn member(object: &serde_json::Map<String, serde_json::Value>, key: &str) -> (res: Found)
    ensures
        match res {
            Found::Absent => !members(*object).contains_key(key@),
            Found::Text(text) => members(*object).contains_key(key@) && members(*object)[key@] == Member::Text(text@),
            Found::Integer(number) => members(*object).contains_key(key@) && members(*object)[key@] == Member::Integer(number),
            Found::Other => members(*object).contains_key(key@) && members(*object)[key@] is Other,
        },
{
    match object.get(key) {
        None => Found::Absent,
        Some(serde_json::Value::String(text)) => Found::Text(text.clone()),
        Some(value) => match value.as_i64() {
            Some(number) => Found::Integer(number),
            None => Found::Other,
        },
    }
}

} // verus!
