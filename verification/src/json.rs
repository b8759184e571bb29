//! The JSON objects of request bodies, held in `serde_json` maps.

use vstd::prelude::*;

verus! {

#[verifier::external_type_specification]
#[verifier::external_body]
#[verifier::reject_recursive_types(K)]
#[verifier::reject_recursive_types(V)]
pub struct ExJsonMap<K, V>(serde_json::Map<K, V>);

#[verifier::external_type_specification]
#[verifier::external_body]
pub struct ExJsonValue(serde_json::Value);

/// The members of a JSON object: each key with the string it holds, or `None`
/// where its value is not a string.
pub uninterp spec fn json_string_members(m: serde_json::Map<String, serde_json::Value>) -> Map<
    Seq<char>,
    Option<Seq<char>>,
>;

/// What reading a JSON text as an object gives: its members as
/// [`json_string_members`] sees them, or the text of the error.
pub uninterp spec fn json_object_parse(text: Seq<char>) -> Result<
    Map<Seq<char>, Option<Seq<char>>>,
    Seq<char>,
>;

/// What writing a JSON object gives: its text, or the text of the error.
pub uninterp spec fn json_object_text(m: serde_json::Map<String, serde_json::Value>) -> Result<
    Seq<char>,
    Seq<char>,
>;

/// Calls `serde_json::from_str::<Map<String, Value>>`; the members, or the
/// error's text, are named.
#[verifier::external_body]
pub(crate) fn json_object_from_str(text: &str) -> (r: Result<
    serde_json::Map<String, serde_json::Value>,
    String,
>)
    ensures
        match r {
            Ok(m) => json_object_parse(text@) == Ok::<_, Seq<char>>(json_string_members(m)),
            Err(e) => json_object_parse(text@) == Err::<Map<Seq<char>, Option<Seq<char>>>, _>(e@),
        },
{
    serde_json::from_str::<serde_json::Map<String, serde_json::Value>>(text).map_err(
        |e| e.to_string(),
    )
}

/// Calls `Map::insert(key, Value::String(value))`: the key now holds the
/// string, and every other member is unchanged.
#[verifier::external_body]
pub(crate) fn json_insert_string(
    m: &mut serde_json::Map<String, serde_json::Value>,
    key: String,
    value: String,
)
    ensures
        json_string_members(*final(m)) == json_string_members(*old(m)).insert(key@, Some(value@)),
{
    m.insert(key, serde_json::Value::String(value));
}

/// Calls `serde_json::to_string` on a map; the text, or the error's text, is
/// named.
#[verifier::external_body]
pub(crate) fn json_object_to_string(m: &serde_json::Map<String, serde_json::Value>) -> (r: Result<
    String,
    String,
>)
    ensures
        match r {
            Ok(t) => json_object_text(*m) == Ok::<Seq<char>, Seq<char>>(t@),
            Err(e) => json_object_text(*m) == Err::<Seq<char>, Seq<char>>(e@),
        },
{
    serde_json::to_string(m).map_err(|e| e.to_string())
}

} // verus!
