//! The calls into the JSON and UUID crates.
//!
//! Nothing in this file is proved. Each function here makes one call into
//! `serde_json` or `uuid`, and its contract gives the call's result a name,
//! so that the functions that build on it can say exactly what they return.

use vstd::prelude::*;

verus! {

/// `serde_json::Value`: a JSON document. Nothing is known of what it holds
/// but through the functions of this file.
#[verifier::external_type_specification]
#[verifier::external_body]
pub struct ExJsonValue(serde_json::Value);

/// `serde_json::Error`: why a document was not read or a value not written.
#[verifier::external_type_specification]
#[verifier::external_body]
pub struct ExJsonError(serde_json::Error);

/// `uuid::Error`: why a text was not read as a UUID.
#[verifier::external_type_specification]
#[verifier::external_body]
pub struct ExUuidError(uuid::Error);

/// The document that `serde_json::from_slice` reads from `payload`, or `None`
/// where it reports an error.
pub uninterp spec fn json_document(payload: Seq<u8>) -> Option<serde_json::Value>;

/// What `Value::get` finds in `document` under the string index `key`.
pub uninterp spec fn json_member(document: serde_json::Value, key: Seq<char>) -> Option<
    serde_json::Value,
>;

/// What `Value::as_str` gives for `value`.
pub uninterp spec fn json_text(value: serde_json::Value) -> Option<Seq<char>>;

/// What `Value::as_u64` gives for `value`.
pub uninterp spec fn json_number(value: serde_json::Value) -> Option<u64>;

/// What `Value::is_null` gives for `value`.
pub uninterp spec fn json_is_null(value: serde_json::Value) -> bool;

/// The JSON text that `serde_json::to_string` writes for the string `text`,
/// or `None` where it reports an error.
pub uninterp spec fn json_string(text: Seq<char>) -> Option<Seq<char>>;

/// The hyphenated text of the UUID with the 128-bit value `id`.
pub uninterp spec fn uuid_text(id: u128) -> Seq<char>;

/// The 128-bit value of the UUID that `Uuid::parse_str` reads from `text`, or
/// `None` where it reports an error.
pub uninterp spec fn uuid_value(text: Seq<char>) -> Option<u128>;

/// `serde_json::from_slice` at the type `Value`: the JSON document in
/// `payload`. The result is `json_document` of the bytes.
#[verifier::external_body]
pub(crate) fn parse_document(payload: &[u8]) -> (parsed: Result<
    serde_json::Value,
    serde_json::Error,
>)
    ensures
        match parsed {
            Ok(document) => json_document(payload@) == Some(document),
            Err(_) => json_document(payload@).is_none(),
        },
{
    serde_json::from_slice::<serde_json::Value>(payload)
}

/// `Value::get` with a string index: the member of an object under `key`.
/// The result is `json_member` of the document and the key.
#[verifier::external_body]
pub(crate) fn member<'a>(document: &'a serde_json::Value, key: &str) -> (found: Option<
    &'a serde_json::Value,
>)
    ensures
        match found {
            Some(value) => json_member(*document, key@) == Some(*value),
            None => json_member(*document, key@).is_none(),
        },
{
    document.get(key)
}

/// `Value::as_str`: the text of a JSON string. The result is `json_text` of
/// the value.
#[verifier::external_body]
pub(crate) fn text_of<'a>(value: &'a serde_json::Value) -> (text: Option<&'a str>)
    ensures
        match text {
            Some(text) => json_text(*value) == Some(text@),
            None => json_text(*value).is_none(),
        },
{
    value.as_str()
}

/// `Value::as_u64`: the value of a JSON integer that fits. The result is
/// `json_number` of the value.
#[verifier::external_body]
pub(crate) fn number_of(value: &serde_json::Value) -> (number: Option<u64>)
    ensures
        number == json_number(*value),
{
    value.as_u64()
}

/// `Value::is_null`. The result is `json_is_null` of the value.
#[verifier::external_body]
pub(crate) fn is_null(value: &serde_json::Value) -> (null: bool)
    ensures
        null == json_is_null(*value),
{
    value.is_null()
}

/// `serde_json::to_string` at the type `str`: the text as a JSON string, in
/// quotes and escaped. The result is `json_string` of the text.
#[verifier::external_body]
pub(crate) fn quote(text: &str) -> (quoted: Result<String, serde_json::Error>)
    ensures
        match quoted {
            Ok(quoted) => json_string(text@) == Some(quoted@),
            Err(_) => json_string(text@).is_none(),
        },
{
    serde_json::to_string(text)
}

/// `Uuid::from_u128`, written in the hyphenated form. The result is
/// `uuid_text` of the value.
#[verifier::external_body]
pub(crate) fn format_uuid(id: u128) -> (text: String)
    ensures
        text@ == uuid_text(id),
{
    uuid::Uuid::from_u128(id).hyphenated().to_string()
}

/// `Uuid::parse_str`, read as a 128-bit value. The result is `uuid_value` of
/// the text.
#[verifier::external_body]
pub(crate) fn parse_uuid(text: &str) -> (parsed: Result<u128, uuid::Error>)
    ensures
        match parsed {
            Ok(id) => uuid_value(text@) == Some(id),
            Err(_) => uuid_value(text@).is_none(),
        },
{
    uuid::Uuid::parse_str(text).map(|id| id.as_u128())
}

} // verus!
