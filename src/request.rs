//! Building a call: the JSON-RPC envelope and the Basic authorization header.

use vstd::prelude::*;
use vstd::string::StringSliceAdditionalSpecFns;
use vstd::utf8::encode_utf8;
use data_encoding::BASE64;
use reqwest::header::HeaderValue;
use crate::fields::text_of;
use crate::json::{Json, JsonNumber};
use crate::records::{method_name, RpcMethod};

verus! {

/// The standard, padded Base64 text of some bytes.
pub uninterp spec fn base64_of(bytes: Seq<u8>) -> Seq<char>;

/// Relies on data_encoding's `BASE64.encode`: the padded standard Base64 text
/// of the UTF-8 bytes of `s`. Its length computation panics beyond
/// `usize::MAX / 512` bytes.
#[verifier::external_body]
fn base64_encode(s: &str) -> (r: String)
    requires
        s.spec_bytes().len() <= usize::MAX / 512,
    ensures
        r@ == base64_of(s.spec_bytes()),
{
    BASE64.encode(s.as_bytes())
}

/// A byte that may stand in a header value: visible ASCII, space, tab, or
/// any byte of 128 and above.
pub open spec fn header_byte_ok(b: u8) -> bool {
    (b >= 32 && b != 127) || b == 9
}

/// Text that can be sent as a header value.
pub open spec fn header_text_ok(s: Seq<char>) -> bool {
    forall|i: int| 0 <= i < encode_utf8(s).len() ==> header_byte_ok(#[trigger] encode_utf8(s)[i])
}

/// Relies on reqwest's `HeaderValue::from_str`, which accepts a text exactly
/// when every one of its bytes is valid in a header value.
#[verifier::external_body]
fn header_value_ok(s: &str) -> (r: bool)
    ensures
        r == header_text_ok(s@),
{
    HeaderValue::from_str(s).is_ok()
}

/// Why a call could not be built from the configuration.
#[derive(Debug, PartialEq, Eq, Structural)]
pub enum ConfigError {
    /// The credentials do not make a valid header value.
    InvalidHeaderValue,
}

/// `"<username>:<password>"`.
pub open spec fn credentials(username: Seq<char>, password: Seq<char>) -> Seq<char> {
    username + ":"@ + password
}

/// `"Basic <encoded>"`.
pub open spec fn basic_value(encoded: Seq<char>) -> Seq<char> {
    "Basic "@ + encoded
}

/// The value of the Authorization header for a username and password.
pub open spec fn authorization_value(username: Seq<char>, password: Seq<char>) -> Seq<char> {
    basic_value(base64_of(encode_utf8(credentials(username, password))))
}

/// The credentials as the Basic scheme joins them.
pub fn credentials_text(username: &str, password: &str) -> (r: String)
    ensures
        r@ == credentials(username@, password@),
{
    let mut c = String::from_str(username);
    c.append(":");
    c.append(password);
    c
}

/// The Authorization header value for already encoded credentials; an error
/// when it cannot be a header value.
pub fn basic_authorization(encoded: &str) -> (r: Result<String, ConfigError>)
    ensures
        match r {
            Ok(h) => header_text_ok(basic_value(encoded@)) && h@ == basic_value(encoded@),
            Err(e) => !header_text_ok(basic_value(encoded@)) && e == ConfigError::InvalidHeaderValue,
        },
{
    let mut h = String::from_str("Basic ");
    h.append(encoded);
    if header_value_ok(h.as_str()) {
        Ok(h)
    } else {
        Err(ConfigError::InvalidHeaderValue)
    }
}

/// The settings every call is made with, loaded once at startup.
#[derive(Debug)]
pub struct RpcConfig {
    pub username: String,
    pub password: String,
    /// The URL the calls are posted to.
    pub endpoint: String,
}

/// The body of a call: `{"jsonrpc": "2.0", "method": m, "params": [..], "id": 1}`,
/// members in that order.
pub open spec fn is_request_body(j: Json, method: Seq<char>, params: Seq<&str>) -> bool {
    match j {
        Json::Object(entries) => {
            let e = entries@;
            &&& e.len() == 4
            &&& e[0].0@ == "jsonrpc"@ && text_of(e[0].1) == Some("2.0"@)
            &&& e[1].0@ == "method"@ && text_of(e[1].1) == Some(method)
            &&& e[2].0@ == "params"@ && texts_are(e[2].1, params)
            &&& e[3].0@ == "id"@ && e[3].1 == Json::Number(JsonNumber::PosInt(1))
        },
        _ => false,
    }
}

/// `j` is an array of the given strings, in order.
pub open spec fn texts_are(j: Json, params: Seq<&str>) -> bool {
    match j {
        Json::Array(items) => {
            &&& items@.len() == params.len()
            &&& forall|i: int| 0 <= i < params.len() ==> text_of(#[trigger] items@[i]) == Some(params[i]@)
        },
        _ => false,
    }
}

/// The JSON-RPC envelope of a call of `method` with positional `params`.
pub fn request_body(method: RpcMethod, params: &[&str]) -> (r: Json)
    ensures
        is_request_body(r, method_name(method), params@),
{
    let mut items: Vec<Json> = Vec::new();
    let mut i: usize = 0;
    while i < params.len()
        invariant
            i <= params@.len(),
            items@.len() == i,
            forall|k: int| 0 <= k < i ==> text_of(#[trigger] items@[k]) == Some(params@[k]@),
        decreases params@.len() - i,
    {
        items.push(Json::String(String::from_str(params[i])));
        i = i + 1;
    }
    let mut entries: Vec<(String, Json)> = Vec::new();
    entries.push((String::from_str("jsonrpc"), Json::String(String::from_str("2.0"))));
    entries.push((String::from_str("method"), Json::String(String::from_str(method.name()))));
    entries.push((String::from_str("params"), Json::Array(items)));
    entries.push((String::from_str("id"), Json::Number(JsonNumber::PosInt(1))));
    Json::Object(entries)
}

/// What is sent for one call: its body and its Authorization header value.
#[derive(Debug)]
pub struct RpcRequest {
    pub body: Json,
    pub authorization: String,
}

impl RpcConfig {
    /// The Authorization header value: `"Basic "` and the Base64 text of
    /// `"<username>:<password>"`; an error when that is no valid header value.
    pub fn authorization_header(&self) -> (r: Result<String, ConfigError>)
        requires
            encode_utf8(credentials(self.username@, self.password@)).len() <= usize::MAX / 512,
        ensures
            match r {
                Ok(h) => header_text_ok(authorization_value(self.username@, self.password@))
                    && h@ == authorization_value(self.username@, self.password@),
                Err(e) => !header_text_ok(authorization_value(self.username@, self.password@))
                    && e == ConfigError::InvalidHeaderValue,
            },
    {
        let c = credentials_text(self.username.as_str(), self.password.as_str());
        let encoded = base64_encode(c.as_str());
        basic_authorization(encoded.as_str())
    }

    /// Builds a call of `method` with `params`: envelope and header together.
    pub fn build_request(&self, method: RpcMethod, params: &[&str]) -> (r: Result<
        RpcRequest,
        ConfigError,
    >)
        requires
            encode_utf8(credentials(self.username@, self.password@)).len() <= usize::MAX / 512,
        ensures
            match r {
                Ok(q) => header_text_ok(authorization_value(self.username@, self.password@))
                    && q.authorization@ == authorization_value(self.username@, self.password@)
                    && is_request_body(q.body, method_name(method), params@),
                Err(e) => !header_text_ok(authorization_value(self.username@, self.password@))
                    && e == ConfigError::InvalidHeaderValue,
            },
    {
        match self.authorization_header() {
            Ok(authorization) => Ok(RpcRequest { body: request_body(method, params), authorization }),
            Err(e) => Err(e),
        }
    }
}

} // verus!
