use vstd::prelude::*;

verus! {

#[verifier::external_type_specification]
#[verifier::external_body]
pub struct ExJsonValue(serde_json::Value);

#[verifier::external_type_specification]
#[verifier::external_body]
pub struct ExJsonError(serde_json::Error);

#[verifier::external_type_specification]
#[verifier::external_body]
#[verifier::reject_recursive_types(K)]
#[verifier::reject_recursive_types(V)]
pub struct ExJsonMap<K, V>(serde_json::Map<K, V>);

/// A JSON object, as `serde_json` holds it.
pub type JsonObject = serde_json::Map<String, serde_json::Value>;

/// The members of a JSON object by their names.
pub type JsonMembers = Map<Seq<char>, serde_json::Value>;

/// What a `serde_json::Map` holds: for each name, the value that is stored under
/// it.
pub uninterp spec fn json_members(object: JsonObject) -> JsonMembers;

/// The JSON value that `serde_json::Value::from` makes of a boolean.
pub uninterp spec fn json_bool(b: bool) -> serde_json::Value;

/// The JSON value that `serde_json::Value::from` makes of an object with these
/// members.
pub uninterp spec fn json_object(members: JsonMembers) -> serde_json::Value;

/// What `serde_json::to_vec` returns for `value`: the bytes of its JSON text, or
/// the error it fails with.
pub uninterp spec fn json_encoding(value: serde_json::Value) -> Result<
    Seq<u8>,
    serde_json::Error,
>;

/// The text that a `serde_json::Error` displays.
pub uninterp spec fn json_error_text(error: serde_json::Error) -> Seq<char>;

/// `serde_json::to_vec` on a JSON value. The same value always gives the same
/// bytes, or the same error.
#[verifier::external_body]
pub(crate) fn encode_value(value: &serde_json::Value) -> (r: Result<Vec<u8>, serde_json::Error>)
    ensures
        match r {
            Ok(bytes) => json_encoding(*value) == Ok::<Seq<u8>, serde_json::Error>(bytes@),
            Err(error) => json_encoding(*value) == Err::<Seq<u8>, serde_json::Error>(error),
        },
{
    serde_json::to_vec(value)
}

/// `to_string` on a `serde_json::Error`: the text it displays.
#[verifier::external_body]
pub(crate) fn describe_json_error(error: &serde_json::Error) -> (text: String)
    ensures
        text@ == json_error_text(*error),
{
    error.to_string()
}

/// `serde_json::Map::new`: an object without members.
#[verifier::external_body]
pub(crate) fn new_object() -> (object: JsonObject)
    ensures
        json_members(object) == JsonMembers::empty(),
{
    serde_json::Map::new()
}

/// `serde_json::Map::insert`: stores `value` under `name`, in place of what was
/// stored under that name, and leaves the other members.
#[verifier::external_body]
pub(crate) fn insert_member(object: &mut JsonObject, name: String, value: serde_json::Value)
    ensures
        json_members(*final(object)) == json_members(*old(object)).insert(name@, value),
{
    object.insert(name, value);
}

/// `serde_json::Value::from` on a boolean: the JSON value `true` or `false`.
#[verifier::external_body]
pub(crate) fn bool_value(b: bool) -> (value: serde_json::Value)
    ensures
        value == json_bool(b),
{
    serde_json::Value::from(b)
}

/// `serde_json::Value::from` on an object: the JSON value that is the object. It
/// is a matter of the members alone, each under its name.
#[verifier::external_body]
pub(crate) fn object_value(object: JsonObject) -> (value: serde_json::Value)
    ensures
        value == json_object(json_members(object)),
{
    serde_json::Value::from(object)
}

} // verus!
