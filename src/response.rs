//! Interpreting a response envelope: an RPC error takes precedence over the
//! result, and a result decodes whole or not at all.

use vstd::prelude::*;
use crate::fields::{text_of, DecodeError};
use crate::json::{member, Json};
use crate::records::{result_failure, result_matches, ApiResult, RpcMethod};

verus! {

/// Declares reqwest's `Error`, so that a transport failure can be carried
/// through as it came; nothing about its contents is assumed.
#[verifier::external_type_specification]
#[verifier::external_body]
pub struct ExTransportError(reqwest::Error);

/// Why a call did not produce a result.
#[derive(Debug)]
pub enum ApiError {
    /// The result did not have the shape its method returns.
    SerdeError(DecodeError),
    /// The node answered with a non-null `error`; its message.
    RPCError(String),
    /// The exchange with the node failed, or its body was not JSON.
    RequestError(reqwest::Error),
}

/// A response envelope as the node sends it.
#[derive(Debug)]
pub struct ApiResponse {
    pub error: Option<Json>,
    pub id: u32,
    pub result: ApiResult,
}

/// The message reported when the node's error carries none.
pub open spec fn unknown_error_message() -> Seq<char> {
    "Unknown API error"@
}

/// The node's error, when the envelope has one that is not null.
pub open spec fn rpc_error(body: Json) -> Option<Json> {
    match member(body, "error"@) {
        Some(e) => if e is Null {
            None
        } else {
            Some(e)
        },
        None => None,
    }
}

/// The `message` of an error when it is a string, else the fixed fallback.
pub open spec fn rpc_error_message(e: Json) -> Seq<char> {
    match member(e, "message"@) {
        Some(m) => match text_of(m) {
            Some(t) => t,
            None => unknown_error_message(),
        },
        None => unknown_error_message(),
    }
}

/// The `result` member of the envelope, null when there is none.
pub open spec fn result_payload(body: Json) -> Json {
    match member(body, "result"@) {
        Some(r) => r,
        None => Json::Null,
    }
}

/// `r` is the outcome of interpreting `body` as the answer to `method`.
pub open spec fn interpreted(method: RpcMethod, body: Json, r: Result<ApiResult, ApiError>) -> bool {
    match rpc_error(body) {
        Some(e) => r matches Err(ApiError::RPCError(m)) && m@ == rpc_error_message(e),
        None => match result_failure(method, result_payload(body)) {
            Some(f) => r matches Err(ApiError::SerdeError(d)) && d@ == f,
            None => r matches Ok(x) && result_matches(method, result_payload(body), x),
        },
    }
}

/// A result that has the shape its method returns is delivered whole: every
/// field equals the member of the payload of the same name.
pub proof fn lemma_well_formed_result_decodes(
    method: RpcMethod,
    body: Json,
    r: Result<ApiResult, ApiError>,
)
    requires
        interpreted(method, body, r),
        rpc_error(body) is None,
        result_failure(method, result_payload(body)) is None,
    ensures
        r matches Ok(x) && result_matches(method, result_payload(body), x),
{
}

/// A non-null `error` whose `message` is a string fails the call with that
/// message verbatim, whatever the `result` holds.
pub proof fn lemma_error_message_verbatim(
    method: RpcMethod,
    body: Json,
    r: Result<ApiResult, ApiError>,
    e: Json,
    message: String,
)
    requires
        interpreted(method, body, r),
        member(body, "error"@) == Some(e),
        !(e is Null),
        member(e, "message"@) == Some(Json::String(message)),
    ensures
        r matches Err(ApiError::RPCError(m)) && m@ == message@,
{
}

/// A non-null `error` without a string `message` fails the call with the
/// fixed fallback message.
pub proof fn lemma_error_message_fallback(
    method: RpcMethod,
    body: Json,
    r: Result<ApiResult, ApiError>,
    e: Json,
)
    requires
        interpreted(method, body, r),
        member(body, "error"@) == Some(e),
        !(e is Null),
        !(member(e, "message"@) matches Some(Json::String(_))),
    ensures
        r matches Err(ApiError::RPCError(m)) && m@ == unknown_error_message(),
{
}

/// A result with a missing or mistyped field fails the call with a decode
/// error; no partial record is returned.
pub proof fn lemma_malformed_result_fails(
    method: RpcMethod,
    body: Json,
    r: Result<ApiResult, ApiError>,
)
    requires
        interpreted(method, body, r),
        rpc_error(body) is None,
        result_failure(method, result_payload(body)) is Some,
    ensures
        r matches Err(ApiError::SerdeError(d)) && Some(d@) == result_failure(
            method,
            result_payload(body),
        ),
{
}

/// The message of the node's error object.
fn error_message(e: &Json) -> (r: String)
    ensures
        r@ == rpc_error_message(*e),
{
    match e.get("message") {
        Some(m) => match m {
            Json::String(s) => s.clone(),
            _ => String::from_str("Unknown API error"),
        },
        None => String::from_str("Unknown API error"),
    }
}

/// Interprets the decoded body of a response to `method`.
pub fn interpret_response(method: RpcMethod, body: &Json) -> (r: Result<ApiResult, ApiError>)
    ensures
        interpreted(method, *body, r),
{
    match body.get("error") {
        Some(e) => if !e.is_null() {
            return Err(ApiError::RPCError(error_message(e)));
        },
        None => {},
    }
    let null = Json::Null;
    let payload = match body.get("result") {
        Some(p) => p,
        None => &null,
    };
    match ApiResult::decode(method, payload) {
        Ok(x) => Ok(x),
        Err(d) => Err(ApiError::SerdeError(d)),
    }
}

/// Completes a call from what the transport delivered: its error, or the
/// decoded body.
pub fn complete_call(method: RpcMethod, reply: Result<Json, reqwest::Error>) -> (r: Result<
    ApiResult,
    ApiError,
>)
    ensures
        match reply {
            Ok(body) => interpreted(method, body, r),
            Err(t) => r matches Err(ApiError::RequestError(u)) && u == t,
        },
{
    match reply {
        Ok(body) => interpret_response(method, &body),
        Err(t) => Err(ApiError::RequestError(t)),
    }
}

} // verus!
