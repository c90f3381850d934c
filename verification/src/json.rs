//! JSON objects that the service answers with.

use vstd::prelude::*;

verus! {

/// Declares `serde_json::Value` to the verifier.
#[verifier::external_type_specification]
#[verifier::external_body]
pub struct ExValue(serde_json::Value);

/// Declares `serde_json::Map` to the verifier.
#[verifier::external_type_specification]
#[verifier::external_body]
#[verifier::reject_recursive_types(K)]
#[verifier::reject_recursive_types(V)]
pub struct ExMap<K, V>(serde_json::Map<K, V>);

/// A JSON object.
pub type JsonObject = serde_json::Map<String, serde_json::Value>;

/// What a member of an answer holds: a number or a text.
pub enum JsonMember {
    Number(int),
    Text(Seq<char>),
}

/// The members of a JSON object, by their names.
pub uninterp spec fn members(object: JsonObject) -> Map<Seq<char>, JsonMember>;

/// The members of an object that has none.
pub open spec fn no_members() -> Map<Seq<char>, JsonMember> {
    Map::empty()
}

/// The JSON object without members.
///
/// Trusted: `serde_json::Map::new`, which the contract claims to have no members.
#[verifier::external_body]
pub(crate) fn empty_object() -> (object: JsonObject)
    ensures
        members(object) == no_members(),
{
    serde_json::Map::new()
}

/// Sets the member `name` to a text.
///
/// Trusted: `serde_json::Map::insert` with a `serde_json::Value` made from the text. The contract
/// claims that the named member then holds that text and that the others stay.
#[verifier::external_body]
pub(crate) fn set_text(object: &mut JsonObject, name: &str, text: &str)
    ensures
        members(*final(object)) == members(*old(object)).insert(
            name@,
            JsonMember::Text(text@),
        ),
{
    object.insert(name.to_owned(), serde_json::Value::from(text));
}

/// Sets the member `name` to a number.
///
/// Trusted: `serde_json::Map::insert` with a `serde_json::Value` made from the number. The
/// contract claims that the named member then holds that number and that the others stay.
#[verifier::external_body]
pub(crate) fn set_number(object: &mut JsonObject, name: &str, number: u16)
    ensures
        members(*final(object)) == members(*old(object)).insert(
            name@,
            JsonMember::Number(number as int),
        ),
{
    object.insert(name.to_owned(), serde_json::Value::from(number));
}

} // verus!
