use vstd::prelude::*;

verus! {

/// `serde_json::Value`, a JSON value of any kind. Problems carry such values as
/// extension members without looking inside them.
#[verifier::external_type_specification]
#[verifier::external_body]
pub struct ExJsonValue(serde_json::Value);

/// `serde_json::Map`, the JSON object type that holds a problem's extension members.
#[verifier::external_type_specification]
#[verifier::external_body]
#[verifier::reject_recursive_types(K)]
#[verifier::reject_recursive_types(V)]
pub struct ExJsonMap<K, V>(serde_json::Map<K, V>);

/// A JSON object as `serde_json` holds it: string keys to JSON values.
pub type JsonObject = serde_json::Map<String, serde_json::Value>;

/// The members of a JSON object: each key, by its characters, to its value.
pub uninterp spec fn json_object_members(
    m: JsonObject,
) -> Map<Seq<char>, serde_json::Value>;

/// The members of an object that has none.
pub open spec fn no_members() -> Map<Seq<char>, serde_json::Value> {
    Map::empty()
}

/// Calls `serde_json::Map::new`, which makes an object without members.
#[verifier::external_body]
pub(crate) fn new_json_object() -> (fresh: JsonObject)
    ensures
        json_object_members(fresh) == no_members(),
{
    serde_json::Map::new()
}

/// Calls `serde_json::Map::insert`, which sets the member `key` to `value`, replacing
/// any value it had, and hands back the value it replaced, if any.
#[verifier::external_body]
pub(crate) fn json_object_insert(
    object: &mut JsonObject,
    key: String,
    value: serde_json::Value,
) -> (previous: Option<serde_json::Value>)
    ensures
        json_object_members(*final(object)) == json_object_members(*old(object)).insert(
            key@,
            value,
        ),
        previous == (if json_object_members(*old(object)).dom().contains(key@) {
            Some(json_object_members(*old(object))[key@])
        } else {
            None
        }),
{
    object.insert(key, value)
}

/// `Clone` on `serde_json::Map` copies every member: each key to a clone of its value,
/// and `serde_json::Value`'s derived `Clone` gives back an equal value.
pub assume_specification[ <serde_json::Map<String, serde_json::Value> as Clone>::clone ](
    object: &serde_json::Map<String, serde_json::Value>,
) -> (copy: serde_json::Map<String, serde_json::Value>)
    ensures
        json_object_members(copy) == json_object_members(*object),
;

} // verus!
