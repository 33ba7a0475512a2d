//! The JSON-RPC 2.0 messages of the local server: requests, responses, error
//! objects and the standard error codes.
use vstd::prelude::*;

use serde_json::Value;

verus! {

#[verifier::external_type_specification]
#[verifier::external_body]
pub struct ExJsonValue(serde_json::Value);

/// Specifies the derived `Clone::clone` of `serde_json::Value`; claims the
/// copy equals the original.
pub assume_specification[ <serde_json::Value as std::clone::Clone>::clone ](v: &serde_json::Value) -> (r: serde_json::Value)
    ensures
        r == *v,
;

/// The JSON string `Value::String` makes of a text.
pub uninterp spec fn json_string_value(text: Seq<char>) -> Value;

/// The JSON object with the single member `key: value`.
pub uninterp spec fn json_single_member(key: Seq<char>, value: Value) -> Value;

/// What `Value::is_null` says of a JSON value: whether it is `null`.
pub uninterp spec fn json_is_null(value: Value) -> bool;

/// Wraps `Value::Null`; claims the result is a JSON `null`, which
/// `Value::is_null` holds of it.
#[verifier::external_body]
fn json_null() -> (r: Value)
    ensures
        json_is_null(r),
{
    Value::Null
}

/// Wraps `Value::String`; claims the result is the named JSON string of `text`.
#[verifier::external_body]
pub(crate) fn json_string(text: String) -> (r: Value)
    ensures
        r == json_string_value(text@),
{
    Value::String(text)
}

/// Wraps `Value::from_iter` on one key/value pair; claims the result is the
/// named single-member object.
#[verifier::external_body]
pub(crate) fn json_object_with(key: &str, value: Value) -> (r: Value)
    ensures
        r == json_single_member(key@, value),
{
    Value::from_iter(vec![(key.to_string(), value)])
}

pub const VERSION_GET_METHOD: &'static str = "version.get";

pub const VENDOR_GET_METHOD: &'static str = "vendor.get";

pub const PRODUCT_PRICES_CURRENT_DAY_GET_METHOD: &'static str = "product-prices.current-day.get";

pub const PARSE_ERROR_CODE: i32 = -32700;

pub const METHOD_NOT_FOUND_CODE: i32 = -32601;

pub const INVALID_PARAMS_CODE: i32 = -32602;

pub const INTERNAL_ERROR_CODE: i32 = -32000;

/// A JSON-RPC request as read from one input line.
#[derive(Debug, Clone, PartialEq)]
pub struct RpcRequest {
    pub id: Value,
    pub method: String,
    pub params: Option<Value>,
}

/// The error member of a failed response.
#[derive(Debug, Clone, PartialEq, Eq)]
pub struct RpcError {
    pub code: i32,
    pub message: String,
}

/// A JSON-RPC 2.0 response.
#[derive(Debug, Clone, PartialEq)]
pub struct RpcResponse {
    pub jsonrpc: &'static str,
    pub id: Value,
    pub result: Option<Value>,
    pub error: Option<RpcError>,
}

/// A JSON-RPC 2.0 response: the version is `"2.0"` and exactly one of
/// `result` and `error` is present.
pub open spec fn is_well_formed(r: RpcResponse) -> bool {
    &&& r.jsonrpc@ == "2.0"@
    &&& (r.result is Some <==> r.error is None)
}

/// Whether `r` is the failure of request `id` with `code` and `message`.
pub open spec fn is_failure(r: RpcResponse, id: Value, code: i32, message: Seq<char>) -> bool {
    &&& is_well_formed(r)
    &&& r.id == id
    &&& r.result is None
    &&& r.error matches Some(e) && e.code == code && e.message@ == message
}

/// Whether `r` is the success of request `id` with `result`.
pub open spec fn is_success(r: RpcResponse, id: Value, result: Value) -> bool {
    &&& is_well_formed(r)
    &&& r.id == id
    &&& r.result == Some(result)
    &&& r.error is None
}

impl RpcResponse {
    pub fn success(id: Value, result: Value) -> (r: Self)
        ensures
            is_success(r, id, result),
    {
        RpcResponse { jsonrpc: "2.0", id, result: Some(result), error: None }
    }

    pub fn error(id: Value, code: i32, message: &str) -> (r: Self)
        ensures
            is_failure(r, id, code, message@),
    {
        RpcResponse {
            jsonrpc: "2.0",
            id,
            result: None,
            error: Some(RpcError { code, message: String::from_str(message) }),
        }
    }

    /// The answer to a line that is not a request; its id is JSON `null`.
    pub fn parse_error() -> (r: Self)
        ensures
            is_well_formed(r),
            json_is_null(r.id),
            r.result is None,
            r.error matches Some(e) && e.code == PARSE_ERROR_CODE && e.message@ == "Parse error"@,
    {
        Self::error(json_null(), PARSE_ERROR_CODE, "Parse error")
    }

    pub fn method_not_found(id: Value) -> (r: Self)
        ensures
            is_failure(r, id, METHOD_NOT_FOUND_CODE, "Method not found"@),
    {
        Self::error(id, METHOD_NOT_FOUND_CODE, "Method not found")
    }

    pub fn invalid_params(id: Value, message: &str) -> (r: Self)
        ensures
            is_failure(r, id, INVALID_PARAMS_CODE, message@),
    {
        Self::error(id, INVALID_PARAMS_CODE, message)
    }

    pub fn internal_error(id: Value, message: &str) -> (r: Self)
        ensures
            is_failure(r, id, INTERNAL_ERROR_CODE, message@),
    {
        Self::error(id, INTERNAL_ERROR_CODE, message)
    }
}

} // verus!
