//! Client core for an authenticated JSON-RPC node endpoint: request
//! construction, credential encoding and typed decoding of responses.

pub mod json;
pub mod fields;
pub mod records;
pub mod request;
pub mod response;
