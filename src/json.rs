//! The JSON facilities the filter relies on, all of them from `serde_json`.
//!
//! A parsed document stays an opaque `serde_json::Value`; what the filter
//! reads from it is named by the uninterpreted functions below.
use vstd::prelude::*;
use vstd::utf8::{decode_utf8, valid_utf8};

verus! {

#[verifier::external_type_specification]
#[verifier::external_body]
pub struct ExValue(serde_json::Value);

/// The document that `serde_json::from_slice::<Value>` reads from these bytes,
/// or `None` where they are not JSON.
pub uninterp spec fn json_document(b: Seq<u8>) -> Option<serde_json::Value>;

/// The member under `key` of a JSON object (`Value::get` with a `&str` key);
/// `None` for a missing key and for every value that is not an object.
pub uninterp spec fn json_member(v: serde_json::Value, key: Seq<char>) -> Option<serde_json::Value>;

/// The text of a JSON string value (`Value::as_str`); `None` for any other kind.
pub uninterp spec fn json_text(v: serde_json::Value) -> Option<Seq<char>>;

/// The JSON string literal, quotes included, that `serde_json::to_string`
/// writes for a text.
pub uninterp spec fn json_quoted(s: Seq<char>) -> Seq<char>;

/// The text `String::from_utf8_lossy` reads from these bytes.
pub uninterp spec fn lossy_text(b: Seq<u8>) -> Seq<char>;

/// A text in which `serde_json` escapes nothing: no quote, no backslash and
/// no control character below U+0020.
pub open spec fn needs_no_escape(s: Seq<char>) -> bool {
    forall|i: int| 0 <= i < s.len() ==> {
        let c = #[trigger] s[i];
        c != '"' && c != '\\' && (c as u32) >= 0x20
    }
}

/// Relies on `serde_json::from_slice::<serde_json::Value>`: whether the bytes
/// parse, and the document they parse to, depend on the bytes alone.
#[verifier::external_body]
pub(crate) fn parse_document(b: &[u8]) -> (r: Option<serde_json::Value>)
    ensures
        r == json_document(b@),
{
    serde_json::from_slice::<serde_json::Value>(b).ok()
}

/// Relies on `serde_json::Value::get` with a string key: the object's member
/// under that key, `None` for a missing key or a value that is not an object.
#[verifier::external_body]
pub(crate) fn member<'a>(v: &'a serde_json::Value, key: &str) -> (r: Option<&'a serde_json::Value>)
    ensures
        r is Some <==> json_member(*v, key@) is Some,
        r is Some ==> json_member(*v, key@) == Some(*r->0),
{
    v.get(key)
}

/// Relies on `serde_json::Value::as_str`: the text of a string value, `None`
/// for every other kind of value.
#[verifier::external_body]
pub(crate) fn text<'a>(v: &'a serde_json::Value) -> (r: Option<&'a str>)
    ensures
        r is Some <==> json_text(*v) is Some,
        r is Some ==> json_text(*v) == Some(r->0@),
{
    v.as_str()
}

/// Relies on `serde_json::to_string` of a `str`: a string literal between two
/// quotes, in which only quotes, backslashes and control characters are
/// escaped. Writing into memory cannot fail, so the error arm is never taken.
#[verifier::external_body]
pub(crate) fn quote(s: &str) -> (r: String)
    ensures
        r@ == json_quoted(s@),
        needs_no_escape(s@) ==> r@ == seq!['"'] + s@ + seq!['"'],
{
    serde_json::to_string(s).unwrap_or_default()
}

/// Relies on `String::from_utf8_lossy`: valid UTF-8 is decoded as it stands,
/// anything else has its invalid sequences replaced.
#[verifier::external_body]
pub(crate) fn lossy(b: &[u8]) -> (r: String)
    ensures
        r@ == lossy_text(b@),
        valid_utf8(b@) ==> r@ == decode_utf8(b@),
{
    String::from_utf8_lossy(b).into_owned()
}

} // verus!
