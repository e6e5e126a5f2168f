//! The calls that leave this library.  Verus takes the contract of each on
//! trust; everything else in the crate is proved from them.

use crate::json::{Json, JsonV, Member};
use crate::text::is_uuid_text;
use serde_json::Value;
use vstd::prelude::*;

verus! {

/// A JSON document of `serde_json`.  It is carried between the calls below
/// and never looked into.
#[verifier::external_type_specification]
#[verifier::external_body]
pub struct ExValue(serde_json::Value);

/// What `serde_json::from_str` makes of a text as a `serde_json::Value`: the
/// document, or the message of the error.
pub uninterp spec fn parsed_value(text: Seq<char>) -> Result<serde_json::Value, Seq<char>>;

/// A JSON-RPC request of `jsonrpc_core`.  It is carried between the calls
/// below and never looked into.
#[verifier::external_type_specification]
#[verifier::external_body]
pub struct ExRequest(jsonrpc_core::Request);

/// What `jsonrpc_core::serde_from_str` makes of a line as a
/// `jsonrpc_core::Request`; `None` where the line is no request.
pub uninterp spec fn parsed_request(line: Seq<char>) -> Option<jsonrpc_core::Request>;

/// A request as the document that `serde_json::to_value` writes for it.
pub uninterp spec fn request_value(request: jsonrpc_core::Request) -> serde_json::Value;

/// What a `serde_json::Value` holds.
pub uninterp spec fn value_json(v: serde_json::Value) -> JsonV;

/// The `serde_json::Value` that holds a document.
pub uninterp spec fn json_value(j: JsonV) -> serde_json::Value;

/// The compact text that `serde_json::to_string` writes for a document.
pub uninterp spec fn value_text(v: serde_json::Value) -> Seq<char>;

/// The lower case of a text, as `str::to_lowercase` gives it.
pub uninterp spec fn lowercased(text: Seq<char>) -> Seq<char>;

/// The standard base64 text of bytes, with padding, as
/// `base64::engine::general_purpose::STANDARD` writes it.
pub uninterp spec fn base64_text(bytes: Seq<u8>) -> Seq<char>;

/// A new session id: `uuid::Uuid::new_v4`, written with its `Display`
/// (`to_string`).  The id is drawn at random, so nothing is claimed of
/// which id it is: the caller tests whether it is in use.  What is claimed
/// is the form in which `Display` writes every id: hyphenated, in lower
/// case.
#[verifier::external_body]
pub(crate) fn fresh_session_id() -> (id: String)
    ensures
        is_uuid_text(id@),
{
    uuid::Uuid::new_v4().to_string()
}

/// The present moment: `chrono::Utc::now`, written by `to_rfc3339`.  Nothing
/// is claimed of the text.
#[verifier::external_body]
pub(crate) fn utc_now_rfc3339() -> (now: String) {
    chrono::Utc::now().to_rfc3339()
}

/// Parses `text` with `serde_json::from_str` into a `serde_json::Value`.  The
/// error is handed back as its message (`to_string`).  The result depends on
/// the text alone.
#[verifier::external_body]
pub(crate) fn value_from_str(text: &str) -> (r: Result<serde_json::Value, String>)
    ensures
        match r {
            Ok(v) => parsed_value(text@) == Ok::<serde_json::Value, Seq<char>>(v),
            Err(e) => parsed_value(text@) == Err::<serde_json::Value, Seq<char>>(e@),
        },
{
    serde_json::from_str::<serde_json::Value>(text).map_err(|e| e.to_string())
}

/// Parses `line` with `jsonrpc_core::serde_from_str` into a
/// `jsonrpc_core::Request`: one call or a batch of calls.  `None` where the
/// line does not parse as a request.  The result depends on the line alone.
#[verifier::external_body]
pub(crate) fn request_from_str(line: &str) -> (r: Option<jsonrpc_core::Request>)
    ensures
        r == parsed_request(line@),
{
    jsonrpc_core::serde_from_str::<jsonrpc_core::Request>(line).ok()
}

/// Writes a request as a document with `serde_json::to_value`, which goes
/// by the `Serialize` that `jsonrpc_core` derives for its requests: a batch
/// is an array of calls; a call is an object with the members `jsonrpc`,
/// `method`, `params` and, for a method call, `id`; an invalid call is an
/// object with the member `id` alone.  For a request the call does not fail.
#[verifier::external_body]
pub(crate) fn value_of_request(request: &jsonrpc_core::Request) -> (v: Value)
    ensures
        v == request_value(*request),
{
    serde_json::to_value(request).unwrap_or_default()
}

/// Copies a `serde_json::Value` into a document of this library, variant by
/// variant.  A number is taken by `as_u64`, else by `as_i64`, else as the
/// text that its `Display` writes.  The members of an object come in the
/// order in which the map hands them out.
#[verifier::external_body]
pub(crate) fn json_of_value(v: &Value) -> (j: Json)
    ensures
        j@ == value_json(*v),
{
    match v {
        Value::Null => Json::Null,
        Value::Bool(b) => Json::Bool(*b),
        Value::Number(n) => match (n.as_u64(), n.as_i64()) {
            (Some(u), _) => Json::PosInt(u),
            (_, Some(i)) => Json::NegInt(i),
            _ => Json::Decimal(n.to_string()),
        },
        Value::String(s) => Json::Str(s.clone()),
        Value::Array(a) => Json::Array(a.iter().map(json_of_value).collect()),
        Value::Object(m) => Json::Object(
            m.iter().map(|(k, x)| Member { key: k.clone(), value: json_of_value(x) }).collect(),
        ),
    }
}

/// Copies a document of this library into a `serde_json::Value`, variant by
/// variant.  A number held as text is read by `serde_json::from_str` as a
/// `serde_json::Number`, and is `null` where it is none.  Of two members with
/// one key the map keeps the later.
#[verifier::external_body]
pub(crate) fn value_of_json(j: &Json) -> (v: Value)
    ensures
        v == json_value(j@),
{
    match j {
        Json::Null => Value::Null,
        Json::Bool(b) => Value::Bool(*b),
        Json::PosInt(n) => Value::from(*n),
        Json::NegInt(n) => Value::from(*n),
        Json::Decimal(t) => serde_json::from_str::<serde_json::Number>(t).map_or(
            Value::Null,
            Value::Number,
        ),
        Json::Str(s) => Value::String(s.clone()),
        Json::Array(a) => Value::Array(a.iter().map(value_of_json).collect()),
        Json::Object(m) => Value::Object(
            m.iter().map(|x| (x.key.clone(), value_of_json(&x.value))).collect(),
        ),
    }
}

/// Writes a `serde_json::Value` as compact text with `serde_json::to_string`.
/// For a `Value` the call does not fail.
#[verifier::external_body]
pub(crate) fn value_to_string(v: &Value) -> (text: String)
    ensures
        text@ == value_text(*v),
{
    serde_json::to_string(v).unwrap_or_default()
}

/// The lower case of `text`: `str::to_lowercase`.
#[verifier::external_body]
pub(crate) fn to_lowercase(text: &str) -> (r: String)
    ensures
        r@ == lowercased(text@),
{
    text.to_lowercase()
}

/// The standard base64 text of `bytes`:
/// `base64::engine::general_purpose::STANDARD.encode`.
#[verifier::external_body]
pub(crate) fn base64_encode(bytes: &[u8]) -> (r: String)
    ensures
        r@ == base64_text(bytes@),
{
    base64::Engine::encode(&base64::engine::general_purpose::STANDARD, bytes)
}

} // verus!
