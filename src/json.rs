//! Reading fields out of JSON documents, through `serde_json`.
//!
//! Each lookup parses the document and follows a JSON Pointer (RFC 6901)
//! such as `/data/fetchKey`; what it finds is handed back as plain values.
use vstd::prelude::*;
use crate::route::model_view;

verus! {

#[verifier::external_type_specification]
#[verifier::external_body]
pub struct ExJsonError(serde_json::Error);

/// Whether `serde_json::from_str::<Value>` accepts `doc`.
pub uninterp spec fn json_parses(doc: Seq<char>) -> bool;

/// The string that `Value::pointer` finds in the document, if it finds one
/// that is a string.
pub uninterp spec fn json_str_at(doc: Seq<char>, pointer: Seq<char>) -> Option<Seq<char>>;

/// The compact JSON text of what `Value::pointer` finds in the document.
pub uninterp spec fn json_text_at(doc: Seq<char>, pointer: Seq<char>) -> Option<Seq<char>>;

/// The length of the array that `Value::pointer` finds in the document, if
/// it finds an array.
pub uninterp spec fn json_len_at(doc: Seq<char>, pointer: Seq<char>) -> Option<nat>;

/// Relies on `serde_json::from_str` to parse the document, then on
/// `Value::pointer` and `Value::as_str` to find a string in it.
#[verifier::external_body]
pub(crate) fn lookup_str(doc: &str, pointer: &str) -> (r: Result<Option<String>, serde_json::Error>)
    ensures
        r is Ok <==> json_parses(doc@),
        r matches Ok(o) ==> model_view(o) == json_str_at(doc@, pointer@),
{
    let v: serde_json::Value = serde_json::from_str(doc)?;
    Ok(v.pointer(pointer).and_then(serde_json::Value::as_str).map(str::to_string))
}

/// Relies on `serde_json::from_str` to parse the document, then on
/// `Value::pointer` to find a value and on `Display for Value` to write it
/// back as compact JSON.
#[verifier::external_body]
pub(crate) fn lookup_text(doc: &str, pointer: &str) -> (r: Result<Option<String>, serde_json::Error>)
    ensures
        r is Ok <==> json_parses(doc@),
        r matches Ok(o) ==> model_view(o) == json_text_at(doc@, pointer@),
{
    let v: serde_json::Value = serde_json::from_str(doc)?;
    Ok(v.pointer(pointer).map(serde_json::Value::to_string))
}

/// Relies on `serde_json::from_str` to parse the document, then on
/// `Value::pointer` and `Value::as_array` to find an array and its length.
#[verifier::external_body]
pub(crate) fn lookup_len(doc: &str, pointer: &str) -> (r: Result<Option<usize>, serde_json::Error>)
    ensures
        r is Ok <==> json_parses(doc@),
        r matches Ok(o) ==> (match o {
            Some(n) => json_len_at(doc@, pointer@) == Some(n as nat),
            None => json_len_at(doc@, pointer@) is None,
        }),
{
    let v: serde_json::Value = serde_json::from_str(doc)?;
    Ok(v.pointer(pointer).and_then(serde_json::Value::as_array).map(Vec::len))
}

/// The decimal digits of `n`.
pub open spec fn decimal(n: nat) -> Seq<char>
    decreases n,
{
    if n < 10 {
        seq![digit(n)]
    } else {
        decimal(n / 10).push(digit(n % 10))
    }
}

pub open spec fn digit(d: nat) -> char {
    ((d + 48) as u8) as char
}

/// The decimal digits of `n`, as text.
pub fn decimal_string(n: usize) -> (r: Vec<char>)
    ensures
        r@ == decimal(n as nat),
    decreases n,
{
    if n < 10 {
        let mut v: Vec<char> = Vec::new();
        v.push(((n as u8) + 48) as char);
        v
    } else {
        let mut v = decimal_string(n / 10);
        v.push((((n % 10) as u8) + 48) as char);
        v
    }
}

} // verus!
