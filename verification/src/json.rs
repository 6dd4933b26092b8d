//! The JSON object that holds the state, as `serde_json` keeps it.
//!
//! Nothing in this file is proved. It declares the types of `serde_json` that
//! the library hands around, gives names to what the state holds and to what
//! `serde_json` reads and writes, and states of each call into `serde_json`
//! what the rest of the library relies on.

use vstd::prelude::*;

verus! {

/// `serde_json::Map`, the object itself. With the features that this crate
/// asks for it is a B-tree map, so its keys are kept in their order.
#[verifier::external_type_specification]
#[verifier::external_body]
#[verifier::reject_recursive_types(K)]
#[verifier::reject_recursive_types(V)]
pub struct ExJsonMap<K, V>(serde_json::Map<K, V>);

/// `serde_json::Value`, any JSON value.
#[verifier::external_type_specification]
#[verifier::external_body]
pub struct ExJsonValue(serde_json::Value);

/// `serde_json::Error`, the reason why a text was not read.
#[verifier::external_type_specification]
#[verifier::external_body]
pub struct ExJsonError(serde_json::Error);

/// What a state holds for one title.
pub enum Stored {
    /// A JSON string, by its characters.
    Text(Seq<char>),
    /// A JSON value of any other kind, by its compact JSON text.
    Other(Seq<char>),
}

/// What a state holds: for each of its titles, the value stored for it.
pub uninterp spec fn state_entries(state: serde_json::Map<String, serde_json::Value>) -> Map<
    Seq<char>,
    Stored,
>;

/// What `serde_json::from_str` makes of a text that is read as an object: the
/// entries of the object, or `None` where the text is not one JSON object.
pub uninterp spec fn json_object(text: Seq<char>) -> Option<Map<Seq<char>, Stored>>;

/// The compact JSON text that `serde_json` writes for an object with the given
/// entries.
pub uninterp spec fn json_text(entries: Map<Seq<char>, Stored>) -> Seq<char>;

/// `serde_json::from_str`, asked for a `Map<String, Value>`. It succeeds on
/// the texts that `json_object` reads as an object, with the entries that
/// `json_object` gives, and fails on every other text.
#[verifier::external_body]
pub(crate) fn parse_object(text: &str) -> (parsed: Result<
    serde_json::Map<String, serde_json::Value>,
    serde_json::Error,
>)
    ensures
        match parsed {
            Ok(state) => json_object(text@) == Some(state_entries(state)),
            Err(_) => json_object(text@) is None,
        },
{
    serde_json::from_str::<serde_json::Map<String, serde_json::Value>>(text)
}

/// The `Display` of `serde_json::Value`, on the object that holds a copy of
/// the state: the compact JSON text of the state's entries.
#[verifier::external_body]
pub(crate) fn write_object(state: &serde_json::Map<String, serde_json::Value>) -> (text: String)
    ensures
        text@ == json_text(state_entries(*state)),
{
    serde_json::Value::Object(state.clone()).to_string()
}

/// `serde_json::Map::get`. The value found is handed out as its characters
/// where it is a JSON string, and as `None` where it is of another kind.
#[verifier::external_body]
pub(crate) fn stored_text<'a>(
    state: &'a serde_json::Map<String, serde_json::Value>,
    title: &str,
) -> (found: Option<Option<&'a str>>)
    ensures
        match found {
            None => !state_entries(*state).contains_key(title@),
            Some(None) => state_entries(*state).contains_key(title@) && state_entries(
                *state,
            )[title@] is Other,
            Some(Some(text)) => state_entries(*state).contains_key(title@) && state_entries(
                *state,
            )[title@] == Stored::Text(text@),
        },
{
    match state.get(title) {
        None => None,
        Some(serde_json::Value::String(text)) => Some(Some(text.as_str())),
        Some(_) => Some(None),
    }
}

/// `serde_json::Map::insert`, with a JSON string as the value: afterwards the
/// state holds that string for the title, and all else as before.
#[verifier::external_body]
pub(crate) fn store_text(
    state: &mut serde_json::Map<String, serde_json::Value>,
    title: String,
    text: String,
)
    ensures
        state_entries(*final(state)) == state_entries(*old(state)).insert(
            title@,
            Stored::Text(text@),
        ),
{
    state.insert(title, serde_json::Value::String(text));
}

/// `serde_json::Map::remove`: afterwards the state holds nothing for the
/// title, and all else as before.
#[verifier::external_body]
pub(crate) fn remove_title(state: &mut serde_json::Map<String, serde_json::Value>, title: &str)
    ensures
        state_entries(*final(state)) == state_entries(*old(state)).remove(title@),
{
    state.remove(title);
}

} // verus!
