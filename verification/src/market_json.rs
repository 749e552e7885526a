//! Access to the JSON bodies of the market-data responses.
//!
//! The JSON work itself — parsing a body, reaching a member, printing a
//! member back as compact text — is done by serde_json behind the trusted
//! items below. What a given body yields is a function of the body's text
//! alone, so each outcome carries a name: the record builders' contracts
//! are exact over these names, and the verified code that turns member
//! texts into numbers and records states the rest itself.

use vstd::prelude::*;
use crate::errors::MarketError;
use crate::text::{remove_second_quotes, spec_strip_ends};

verus! {

/// Whether a body parses as a JSON document.
pub uninterp spec fn json_ok_of(body: Seq<char>) -> bool;

/// The compact JSON text of the named member of the parsed body: the text
/// of null when the member is absent or the body is no object.
pub uninterp spec fn member_text_of(body: Seq<char>, key: Seq<char>) -> Seq<char>;

/// Whether the parsed body is a JSON array.
pub uninterp spec fn array_of(body: Seq<char>) -> bool;

/// How many elements the parsed body has, as a JSON array.
pub uninterp spec fn array_len_of(body: Seq<char>) -> int;

/// The compact JSON text of the named member of one element of the parsed
/// body's array.
pub uninterp spec fn element_member_text_of(body: Seq<char>, index: int, key: Seq<char>) -> Seq<
    char,
>;

/// Whether the named member of the parsed body is a JSON array.
pub uninterp spec fn member_array_of(body: Seq<char>, key: Seq<char>) -> bool;

/// How many elements the named array member of the parsed body has.
pub uninterp spec fn member_array_len_of(body: Seq<char>, key: Seq<char>) -> int;

/// The compact JSON text of a field of one element of the named array
/// member of the parsed body.
pub uninterp spec fn member_element_text_of(
    body: Seq<char>,
    key: Seq<char>,
    index: int,
    field: Seq<char>,
) -> Seq<char>;

/// Relies on serde_json::from_str: whether the body is well-formed JSON.
#[verifier::external_body]
pub(crate) fn json_check(body: &str) -> (ok: bool)
    ensures
        ok == json_ok_of(body@),
{
    serde_json::from_str::<serde_json::Value>(body).is_ok()
}

/// Relies on serde_json::from_str, Value's indexing and its Display: the
/// named member of the parsed body, printed as compact JSON text. The text
/// is never empty: an absent member prints as null.
#[verifier::external_body]
pub(crate) fn json_member_text(body: &str, key: &str) -> (text: String)
    requires
        json_ok_of(body@),
    ensures
        text@ == member_text_of(body@, key@),
        text@.len() >= 1,
{
    let v: serde_json::Value = serde_json::from_str(body).unwrap();
    v[key].to_string()
}

/// Relies on serde_json::from_str and Value::as_array: how many elements
/// the body holds when it is a JSON array, and nothing when it is not.
#[verifier::external_body]
pub(crate) fn json_array_len(body: &str) -> (r: Option<usize>)
    requires
        json_ok_of(body@),
    ensures
        r is Some <==> array_of(body@),
        r matches Some(n) ==> n == array_len_of(body@),
{
    let v: serde_json::Value = serde_json::from_str(body).unwrap();
    v.as_array().map(|a| a.len())
}

/// Relies on serde_json::from_str, Value's indexing and its Display: the
/// named member of one element of the body's array, printed as compact
/// JSON text.
#[verifier::external_body]
pub(crate) fn json_element_member_text(body: &str, index: usize, key: &str) -> (text: String)
    requires
        json_ok_of(body@),
        array_of(body@),
        index < array_len_of(body@),
    ensures
        text@ == element_member_text_of(body@, index as int, key@),
        text@.len() >= 1,
{
    let v: serde_json::Value = serde_json::from_str(body).unwrap();
    v[index][key].to_string()
}

/// Relies on serde_json::from_str, Value's indexing and Value::as_array:
/// how many elements the named member holds when it is a JSON array, and
/// nothing when it is not.
#[verifier::external_body]
pub(crate) fn json_member_array_len(body: &str, key: &str) -> (r: Option<usize>)
    requires
        json_ok_of(body@),
    ensures
        r is Some <==> member_array_of(body@, key@),
        r matches Some(n) ==> n == member_array_len_of(body@, key@),
{
    let v: serde_json::Value = serde_json::from_str(body).unwrap();
    v[key].as_array().map(|a| a.len())
}

/// Relies on serde_json::from_str, Value's indexing and its Display: a
/// field of one element of the named array member, printed as compact
/// JSON text.
#[verifier::external_body]
pub(crate) fn json_member_element_text(body: &str, key: &str, index: usize, field: &str) -> (text:
    String)
    requires
        json_ok_of(body@),
        member_array_of(body@, key@),
        index < member_array_len_of(body@, key@),
    ensures
        text@ == member_element_text_of(body@, key@, index as int, field@),
        text@.len() >= 1,
{
    let v: serde_json::Value = serde_json::from_str(body).unwrap();
    v[key][index][field].to_string()
}

/// The delimited payload of a trade-market response: the text of its
/// `resultMsg` member with the surrounding quotes removed.
pub open spec fn spec_result_msg_payload(body: Seq<char>) -> Seq<char> {
    spec_strip_ends(member_text_of(body, "resultMsg"@))
}

/// Extracts the delimited payload of a trade-market response: the
/// `resultMsg` member's text with its surrounding quotes removed.
/// Signals an error exactly when the body is not well-formed JSON.
pub fn get_result_msg_data(body: &str) -> (r: Result<String, MarketError>)
    ensures
        r is Ok <==> json_ok_of(body@),
        r matches Ok(t) ==> t@ == spec_result_msg_payload(body@),
        r matches Err(e) ==> e == MarketError::MalformedJson,
{
    if !json_check(body) {
        return Err(MarketError::MalformedJson);
    }
    let text = json_member_text(body, "resultMsg");
    Ok(remove_second_quotes(text.as_str()))
}

/// Extracts the listing payload of a world-market-list response: the
/// `marketList` member printed back as JSON text.
/// Signals an error exactly when the body is not well-formed JSON.
pub fn get_result_msg_market_list(body: &str) -> (r: Result<String, MarketError>)
    ensures
        r is Ok <==> json_ok_of(body@),
        r matches Ok(t) ==> t@ == member_text_of(body@, "marketList"@),
        r matches Err(e) ==> e == MarketError::MalformedJson,
{
    if !json_check(body) {
        return Err(MarketError::MalformedJson);
    }
    Ok(json_member_text(body, "marketList"))
}

} // verus!
