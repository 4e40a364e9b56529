//! The JSON objects that the library fills and reads: keys with text values.

use vstd::prelude::*;

verus! {

#[verifier::external_type_specification]
#[verifier::external_body]
#[verifier::reject_recursive_types(K)]
#[verifier::reject_recursive_types(V)]
pub struct ExJsonMap<K, V>(serde_json::Map<K, V>);

#[verifier::external_type_specification]
#[verifier::external_body]
pub struct ExJsonValue(serde_json::Value);

/// What an object under construction holds: each key, with its text where the
/// value is a JSON string and `None` where it is any other JSON value.
pub uninterp spec fn object_entries(
    m: serde_json::Map<String, serde_json::Value>,
) -> Map<Seq<char>, Option<Seq<char>>>;

/// What a JSON value holds: the entries of an object, nothing for any other
/// value.
pub uninterp spec fn value_entries(v: serde_json::Value) -> Map<Seq<char>, Option<Seq<char>>>;

/// The entries of an empty object.
pub open spec fn no_entries() -> Map<Seq<char>, Option<Seq<char>>> {
    Map::empty()
}

/// `serde_json::Map::new`: an object without entries.
#[verifier::external_body]
pub(crate) fn new_object() -> (r: serde_json::Map<String, serde_json::Value>)
    ensures
        object_entries(r) == no_entries(),
{
    serde_json::Map::new()
}

/// `serde_json::Map::insert` with a JSON string: the key has that text
/// afterwards, whatever it had before, and no other key changes.
#[verifier::external_body]
pub(crate) fn put_text(m: &mut serde_json::Map<String, serde_json::Value>, key: &str, value: &str)
    ensures
        object_entries(*final(m)) == object_entries(*old(m)).insert(key@, Some(value@)),
{
    m.insert(key.to_string(), serde_json::Value::String(value.to_string()));
}

/// `serde_json::Map::is_empty`: whether there is no entry.
#[verifier::external_body]
pub(crate) fn object_is_empty(m: &serde_json::Map<String, serde_json::Value>) -> (r: bool)
    ensures
        r == (object_entries(*m) == no_entries()),
{
    m.is_empty()
}

/// `serde_json::Map::get`, followed by `serde_json::Value::as_str`: the text
/// under `key`, if there is an entry and its value is a JSON string.
#[verifier::external_body]
pub(crate) fn object_text<'a>(
    m: &'a serde_json::Map<String, serde_json::Value>,
    key: &str,
) -> (r: Option<&'a str>)
    ensures
        match r {
            Some(t) => object_entries(*m).contains_key(key@) && object_entries(*m)[key@] == Some(
                t@,
            ),
            None => object_entries(*m).contains_key(key@) ==> object_entries(*m)[key@] is None,
        },
{
    m.get(key).and_then(|v| v.as_str())
}

/// `serde_json::Value::Object`: the object as a JSON value.
#[verifier::external_body]
pub(crate) fn object_value(m: serde_json::Map<String, serde_json::Value>) -> (r: serde_json::Value)
    ensures
        value_entries(r) == object_entries(m),
{
    serde_json::Value::Object(m)
}

/// `serde_json::Value::get` with a key, followed by
/// `serde_json::Value::as_str`: the text under `key`, if the value is an object
/// with such an entry and that entry is a JSON string.
#[verifier::external_body]
pub(crate) fn value_text<'a>(v: &'a serde_json::Value, key: &str) -> (r: Option<&'a str>)
    ensures
        match r {
            Some(t) => value_entries(*v).contains_key(key@) && value_entries(*v)[key@] == Some(t@),
            None => value_entries(*v).contains_key(key@) ==> value_entries(*v)[key@] is None,
        },
{
    v.get(key).and_then(|x| x.as_str())
}

} // verus!
