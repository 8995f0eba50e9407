//! Declarations of the `serde_json` items the library calls.

use vstd::prelude::*;

use crate::error::JsonKind;

verus! {

/// `serde_json::Value`, carried through as an opaque value.
#[verifier::external_type_specification]
#[verifier::external_body]
pub struct ExJsonValue(serde_json::Value);

/// `serde_json::Map`, opaque; what it holds is named by
/// `json_object_contents`.
#[verifier::external_type_specification]
#[verifier::external_body]
#[verifier::reject_recursive_types(K)]
#[verifier::reject_recursive_types(V)]
pub struct ExJsonMap<K, V>(serde_json::Map<K, V>);

/// What a JSON object holds: each key with its value.
pub uninterp spec fn json_object_contents(
    object: serde_json::Map<String, serde_json::Value>,
) -> Map<Seq<char>, serde_json::Value>;

/// The value `Value::String` makes of a text.
pub uninterp spec fn json_string_value(text: Seq<char>) -> serde_json::Value;

/// The value `Value::Array` makes of some items.
pub uninterp spec fn json_array_value(items: Seq<serde_json::Value>) -> serde_json::Value;

/// The value `Value::from` makes of an optional value.
pub uninterp spec fn json_option_value(item: Option<serde_json::Value>) -> serde_json::Value;

/// The value `Value::Object` makes of an object with these contents.
pub uninterp spec fn json_object_value(
    contents: Map<Seq<char>, serde_json::Value>,
) -> serde_json::Value;

/// What `serde_json::from_str::<Value>` makes of a text: the parsed value,
/// or the text of the parser's error.
pub uninterp spec fn parse_json_text(text: Seq<char>) -> Result<serde_json::Value, Seq<char>>;

/// Which kind of JSON value a value is.
pub uninterp spec fn json_value_kind(value: serde_json::Value) -> JsonKind;

/// The bytes `serde_json::to_vec` writes for a value.
pub uninterp spec fn json_bytes(value: serde_json::Value) -> Seq<u8>;

/// The keys of a sequence of entries.
pub open spec fn entry_keys(entries: Seq<(String, serde_json::Value)>) -> Seq<Seq<char>> {
    entries.map_values(|entry: (String, serde_json::Value)| entry.0@)
}

/// `Map::new`: an empty object.
#[verifier::external_body]
pub(crate) fn json_map_new() -> (created: serde_json::Map<String, serde_json::Value>)
    ensures
        json_object_contents(created).dom() == Set::<Seq<char>>::empty(),
{
    serde_json::Map::new()
}

/// `Map::insert`: the key is given this value, replacing any earlier one.
#[verifier::external_body]
pub(crate) fn json_map_insert(
    object: &mut serde_json::Map<String, serde_json::Value>,
    key: String,
    value: serde_json::Value,
)
    ensures
        json_object_contents(*final(object)) == json_object_contents(*old(object)).insert(
            key@,
            value,
        ),
{
    object.insert(key, value);
}

/// `Map::extend` with the entries of another object: each of its keys is
/// given its value there, replacing any earlier one.
#[verifier::external_body]
pub(crate) fn json_map_extend(
    object: &mut serde_json::Map<String, serde_json::Value>,
    other: serde_json::Map<String, serde_json::Value>,
)
    ensures
        json_object_contents(*final(object)) == json_object_contents(
            *old(object),
        ).union_prefer_right(json_object_contents(other)),
{
    object.extend(other);
}

/// `Map::iter`, each entry cloned: every key once, with its value.
#[verifier::external_body]
pub(crate) fn json_map_entries(
    object: &serde_json::Map<String, serde_json::Value>,
) -> (entries: Vec<(String, serde_json::Value)>)
    ensures
        entry_keys(entries@).to_set() == json_object_contents(*object).dom(),
        entry_keys(entries@).no_duplicates(),
        forall|i: int| 0 <= i < entries@.len()
            ==> json_object_contents(*object).contains_key(#[trigger] entries@[i].0@)
                && json_object_contents(*object)[entries@[i].0@] == entries@[i].1,
{
    object.clone().into_iter().collect()
}

/// `Value::String`.
#[verifier::external_body]
pub(crate) fn json_string(text: String) -> (value: serde_json::Value)
    ensures
        value == json_string_value(text@),
        json_value_kind(value) == JsonKind::String,
{
    serde_json::Value::String(text)
}

/// `Value::Array`.
#[verifier::external_body]
pub(crate) fn json_array(items: Vec<serde_json::Value>) -> (value: serde_json::Value)
    ensures
        value == json_array_value(items@),
        json_value_kind(value) == JsonKind::Array,
{
    serde_json::Value::Array(items)
}

/// `Value::from(Option<Value>)`: the value itself, or `null` when absent.
#[verifier::external_body]
pub(crate) fn json_option(item: Option<serde_json::Value>) -> (value: serde_json::Value)
    ensures
        value == json_option_value(item),
        item matches Some(inner) ==> value == inner,
        item is None ==> json_value_kind(value) == JsonKind::Null,
{
    serde_json::Value::from(item)
}

/// `Value::Object`.
#[verifier::external_body]
pub(crate) fn json_object(object: serde_json::Map<String, serde_json::Value>) -> (value:
    serde_json::Value)
    ensures
        value == json_object_value(json_object_contents(object)),
        json_value_kind(value) == JsonKind::Object,
{
    serde_json::Value::Object(object)
}

/// The variant of a `serde_json::Value`.
#[verifier::external_body]
pub(crate) fn json_kind(value: &serde_json::Value) -> (kind: JsonKind)
    ensures
        kind == json_value_kind(*value),
{
    match value {
        serde_json::Value::Null => JsonKind::Null,
        serde_json::Value::Bool(_) => JsonKind::Bool,
        serde_json::Value::Number(_) => JsonKind::Number,
        serde_json::Value::String(_) => JsonKind::String,
        serde_json::Value::Array(_) => JsonKind::Array,
        serde_json::Value::Object(_) => JsonKind::Object,
    }
}

/// `serde_json::from_str::<Value>`, the error rendered as its text.
#[verifier::external_body]
pub(crate) fn json_from_str(text: &str) -> (parsed: Result<serde_json::Value, String>)
    ensures
        match parsed {
            Ok(value) => parse_json_text(text@) == Ok::<serde_json::Value, Seq<char>>(value),
            Err(message) => parse_json_text(text@) == Err::<serde_json::Value, Seq<char>>(
                message@,
            ),
        },
{
    serde_json::from_str::<serde_json::Value>(text).map_err(|error| error.to_string())
}

/// `serde_json::to_vec` of a value, the error rendered as its text. Its
/// documentation names two causes of failure, a `Serialize` impl that
/// fails and a map with non-string keys; `Value`'s impl never fails and
/// its maps have string keys, and writing to a `Vec` cannot fail, so the
/// call succeeds.
#[verifier::external_body]
pub(crate) fn json_to_vec(value: &serde_json::Value) -> (bytes: Result<Vec<u8>, String>)
    ensures
        bytes is Ok,
        bytes matches Ok(b) ==> b@ == json_bytes(*value),
{
    serde_json::to_vec(value).map_err(|error| error.to_string())
}

} // verus!
