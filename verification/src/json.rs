use vstd::prelude::*;
use crate::claims::{claim_map, ClaimValue, ClaimValueView};

verus! {

#[verifier::external_type_specification]
#[verifier::external_body]
pub struct ExJsonValue(serde_json::Value);

/// The members of a `serde_json::Value` that is an object, each under its
/// name and by the kind of its value; any other value has none.
pub uninterp spec fn json_members(value: serde_json::Value) -> Map<Seq<char>, ClaimValueView>;

/// What `serde_json::from_str` makes of a text: the members of the value it
/// reads, or its message where the text is no JSON document.
pub uninterp spec fn json_document(text: Seq<char>) -> Result<
    Map<Seq<char>, ClaimValueView>,
    Seq<char>,
>;

/// Reads a JSON document with `serde_json::from_str`, which depends on the
/// text alone. The contract names what that function makes of the text.
#[verifier::external_body]
pub(crate) fn parse_json(text: &str) -> (parsed: Result<serde_json::Value, String>)
    ensures
        match parsed {
            Ok(value) => json_document(text@) == Ok::<Map<Seq<char>, ClaimValueView>, Seq<char>>(
                json_members(value),
            ),
            Err(message) => json_document(text@) == Err::<Map<Seq<char>, ClaimValueView>, Seq<char>>(
                message@,
            ),
        },
{
    serde_json::from_str::<serde_json::Value>(text).map_err(|e| e.to_string())
}

/// Lists the members of a `serde_json::Value` that is an object, through
/// `Value::as_object`: each name once, with its value told apart by kind.
/// A number counts as an integer where `Number::as_i64` gives one.
#[verifier::external_body]
pub(crate) fn claim_fields(value: &serde_json::Value) -> (fields: Vec<(String, ClaimValue)>)
    ensures
        claim_map(fields@) == json_members(*value),
{
    let mut fields = Vec::new();
    for (name, member) in value.as_object().into_iter().flatten() {
        let claim = match member {
            serde_json::Value::Null => ClaimValue::Null,
            serde_json::Value::String(text) => ClaimValue::Text(text.clone()),
            serde_json::Value::Number(number) => number.as_i64().map_or(
                ClaimValue::Other,
                ClaimValue::Integer,
            ),
            _ => ClaimValue::Other,
        };
        fields.push((name.clone(), claim));
    }
    fields
}

} // verus!
