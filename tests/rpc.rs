use data_encoding::BASE64;
use rpc_client::fields::DecodeError;
use rpc_client::json::{Json, JsonNumber};
use rpc_client::records::{decode_address_list, ApiResult, GetInfoResult, RpcMethod, ValidateAddress};
use rpc_client::request::{basic_authorization, credentials_text, request_body, ConfigError, RpcConfig};
use rpc_client::response::{complete_call, interpret_response, ApiError};

fn text(s: &str) -> Json {
    Json::String(s.to_string())
}

fn uint(n: u64) -> Json {
    Json::Number(JsonNumber::PosInt(n))
}

fn decimal(x: f64) -> Json {
    Json::Number(JsonNumber::Float(x.to_bits()))
}

fn obj(members: Vec<(&str, Json)>) -> Json {
    Json::Object(members.into_iter().map(|(k, v)| (k.to_string(), v)).collect())
}

fn envelope(error: Json, result: Json) -> Json {
    obj(vec![("error", error), ("id", uint(1)), ("result", result)])
}

fn info_members() -> Vec<(&'static str, Json)> {
    vec![
        ("balance", decimal(1.5)),
        ("blocks", uint(100)),
        ("burnaddress", text("1XXXXXXX")),
        ("chainname", text("chain1")),
        ("connections", uint(3)),
        ("description", text("MultiChain chain1")),
        ("difficulty", decimal(0.25)),
        ("errors", text("")),
        ("nodeaddress", text("chain1@10.0.0.1:7447")),
        ("nodeversion", uint(20000901)),
        ("paytxfee", decimal(0.0)),
        ("protocol", text("multichain")),
        ("protocolversion", uint(20012)),
        ("proxy", text("")),
        ("testnet", Json::Bool(false)),
        ("version", text("2.0.1")),
    ]
}

fn validation_members() -> Vec<(&'static str, Json)> {
    vec![
        ("account", text("")),
        ("address", text("1YXWvSKFm4XG5yPiFcXGGSvEwH4D8K2nRcXWeA")),
        ("iscompressed", Json::Bool(true)),
        ("ismine", Json::Bool(false)),
        ("isvalid", Json::Bool(true)),
        ("pubkey", text("02ab")),
        ("synchronized", Json::Bool(true)),
    ]
}

fn config(username: &str, password: &str) -> RpcConfig {
    RpcConfig {
        username: username.to_string(),
        password: password.to_string(),
        endpoint: "http://127.0.0.1:8570".to_string(),
    }
}

#[test]
fn authorization_header_of_u_and_p() {
    let header = config("u", "p").authorization_header().unwrap();
    assert_eq!(header, format!("Basic {}", BASE64.encode(b"u:p")));
    assert_eq!(header, "Basic dTpw");
    let decoded = BASE64.decode(header["Basic ".len()..].as_bytes()).unwrap();
    assert_eq!(decoded, b"u:p".to_vec());
}

#[test]
fn authorization_header_is_encoded_not_plain() {
    let header = config("user", "secret").authorization_header().unwrap();
    assert_eq!(header, "Basic dXNlcjpzZWNyZXQ=");
}

#[test]
fn credentials_are_joined_by_a_colon() {
    assert_eq!(credentials_text("u", "p"), "u:p");
    assert_eq!(credentials_text("", ""), ":");
}

#[test]
fn basic_authorization_rejects_invalid_header_text() {
    assert_eq!(basic_authorization("dTpw"), Ok("Basic dTpw".to_string()));
    assert_eq!(basic_authorization("a\nb"), Err(ConfigError::InvalidHeaderValue));
    assert_eq!(basic_authorization("a\u{7f}"), Err(ConfigError::InvalidHeaderValue));
    assert_eq!(basic_authorization("a\tb"), Ok("Basic a\tb".to_string()));
}

#[test]
fn request_body_is_a_json_rpc_envelope() {
    let body = request_body(RpcMethod::ValidateAddress, &["1abc", "x"]);
    let expected = obj(vec![
        ("jsonrpc", text("2.0")),
        ("method", text("validateaddress")),
        ("params", Json::Array(vec![text("1abc"), text("x")])),
        ("id", uint(1)),
    ]);
    assert_eq!(body, expected);
}

#[test]
fn build_request_carries_body_and_header() {
    let q = config("u", "p").build_request(RpcMethod::GetInfo, &[]).unwrap();
    assert_eq!(q.authorization, "Basic dTpw");
    assert_eq!(q.body.get("method"), Some(&text("getinfo")));
    assert_eq!(q.body.get("params"), Some(&Json::Array(vec![])));
}

#[test]
fn method_names_on_the_wire() {
    assert_eq!(RpcMethod::GetInfo.name(), "getinfo");
    assert_eq!(RpcMethod::ListAddresses.name(), "listaddresses");
    assert_eq!(RpcMethod::ValidateAddress.name(), "validateaddress");
}

#[test]
fn scenario_getinfo_succeeds() {
    let body = envelope(Json::Null, obj(info_members()));
    match interpret_response(RpcMethod::GetInfo, &body) {
        Ok(ApiResult::Info(info)) => {
            assert_eq!(info.balance, JsonNumber::Float(1.5f64.to_bits()));
            assert_eq!(info.blocks, 100);
            assert_eq!(info.burnaddress, "1XXXXXXX");
            assert_eq!(info.chainname, "chain1");
            assert_eq!(info.connections, 3);
            assert_eq!(info.description, "MultiChain chain1");
            assert_eq!(info.difficulty, JsonNumber::Float(0.25f64.to_bits()));
            assert_eq!(info.errors, "");
            assert_eq!(info.nodeaddress, "chain1@10.0.0.1:7447");
            assert_eq!(info.nodeversion, 20000901);
            assert_eq!(info.paytxfee, JsonNumber::Float(0.0f64.to_bits()));
            assert_eq!(info.protocol, "multichain");
            assert_eq!(info.protocolversion, 20012);
            assert_eq!(info.proxy, "");
            assert!(!info.testnet);
            assert_eq!(info.version, "2.0.1");
        },
        other => panic!("unexpected {:?}", other),
    }
}

#[test]
fn scenario_listaddresses_succeeds() {
    let entry = obj(vec![("address", text("1abc")), ("ismine", Json::Bool(true))]);
    let body = envelope(Json::Null, Json::Array(vec![entry]));
    match interpret_response(RpcMethod::ListAddresses, &body) {
        Ok(ApiResult::Addresses(v)) => {
            assert_eq!(v.len(), 1);
            assert_eq!(v[0].address, "1abc");
            assert!(v[0].ismine);
        },
        other => panic!("unexpected {:?}", other),
    }
}

#[test]
fn scenario_validateaddress_rpc_error() {
    let body = envelope(obj(vec![("message", text("bad address"))]), Json::Null);
    match interpret_response(RpcMethod::ValidateAddress, &body) {
        Err(ApiError::RPCError(m)) => assert_eq!(m, "bad address"),
        other => panic!("unexpected {:?}", other),
    }
}

#[test]
fn validateaddress_decodes_every_field() {
    let body = envelope(Json::Null, obj(validation_members()));
    match interpret_response(RpcMethod::ValidateAddress, &body) {
        Ok(ApiResult::ValidateAddress(x)) => assert_eq!(
            x,
            ValidateAddress {
                account: "".to_string(),
                address: "1YXWvSKFm4XG5yPiFcXGGSvEwH4D8K2nRcXWeA".to_string(),
                iscompressed: true,
                ismine: false,
                isvalid: true,
                pubkey: "02ab".to_string(),
                synchronized: true,
            }
        ),
        other => panic!("unexpected {:?}", other),
    }
}

#[test]
fn error_takes_precedence_over_result() {
    let body = envelope(obj(vec![("message", text("busy")), ("code", uint(7))]), obj(validation_members()));
    match interpret_response(RpcMethod::ValidateAddress, &body) {
        Err(ApiError::RPCError(m)) => assert_eq!(m, "busy"),
        other => panic!("unexpected {:?}", other),
    }
}

#[test]
fn error_without_message_uses_fallback() {
    let body = envelope(obj(vec![("code", uint(7))]), Json::Null);
    match interpret_response(RpcMethod::GetInfo, &body) {
        Err(ApiError::RPCError(m)) => assert_eq!(m, "Unknown API error"),
        other => panic!("unexpected {:?}", other),
    }
}

#[test]
fn error_with_non_string_message_uses_fallback() {
    let body = envelope(obj(vec![("message", uint(5))]), Json::Null);
    match interpret_response(RpcMethod::ListAddresses, &body) {
        Err(ApiError::RPCError(m)) => assert_eq!(m, "Unknown API error"),
        other => panic!("unexpected {:?}", other),
    }
    let body = envelope(text("plain"), Json::Null);
    match interpret_response(RpcMethod::ListAddresses, &body) {
        Err(ApiError::RPCError(m)) => assert_eq!(m, "Unknown API error"),
        other => panic!("unexpected {:?}", other),
    }
}

#[test]
fn missing_error_member_is_no_error() {
    let body = obj(vec![("id", uint(1)), ("result", Json::Array(vec![]))]);
    match interpret_response(RpcMethod::ListAddresses, &body) {
        Ok(ApiResult::Addresses(v)) => assert!(v.is_empty()),
        other => panic!("unexpected {:?}", other),
    }
}

#[test]
fn empty_address_list_is_a_success() {
    let body = envelope(Json::Null, Json::Array(vec![]));
    match interpret_response(RpcMethod::ListAddresses, &body) {
        Ok(ApiResult::Addresses(v)) => assert_eq!(v.len(), 0),
        other => panic!("unexpected {:?}", other),
    }
}

#[test]
fn missing_field_is_a_decode_error() {
    let members: Vec<(&str, Json)> = info_members().into_iter().filter(|(k, _)| *k != "blocks").collect();
    let body = envelope(Json::Null, obj(members));
    match interpret_response(RpcMethod::GetInfo, &body) {
        Err(ApiError::SerdeError(d)) => assert_eq!(d, DecodeError::MissingField("blocks".to_string())),
        other => panic!("unexpected {:?}", other),
    }
}

#[test]
fn mistyped_field_is_a_decode_error() {
    let entry = obj(vec![("address", text("1abc")), ("ismine", text("yes"))]);
    let body = envelope(Json::Null, Json::Array(vec![entry]));
    match interpret_response(RpcMethod::ListAddresses, &body) {
        Err(ApiError::SerdeError(d)) => assert_eq!(d, DecodeError::InvalidField("ismine".to_string())),
        other => panic!("unexpected {:?}", other),
    }
}

#[test]
fn first_bad_field_in_declaration_order_is_reported() {
    let mut members = validation_members();
    members.retain(|(k, _)| *k != "pubkey");
    members[0].1 = uint(1);
    let j = obj(members);
    assert_eq!(ValidateAddress::from_json(&j), Err(DecodeError::InvalidField("account".to_string())));
}

#[test]
fn later_bad_entry_fails_the_whole_list() {
    let good = obj(vec![("address", text("1abc")), ("ismine", Json::Bool(true))]);
    let bad = obj(vec![("address", text("1def"))]);
    let list = Json::Array(vec![good, bad]);
    assert_eq!(decode_address_list(&list), Err(DecodeError::MissingField("ismine".to_string())));
}

#[test]
fn wrong_payload_shapes() {
    assert_eq!(decode_address_list(&obj(vec![])), Err(DecodeError::NotAnArray));
    assert_eq!(GetInfoResult::from_json(&Json::Array(vec![])), Err(DecodeError::NotAnObject));
    let body = obj(vec![("error", Json::Null), ("id", uint(1))]);
    match interpret_response(RpcMethod::GetInfo, &body) {
        Err(ApiError::SerdeError(d)) => assert_eq!(d, DecodeError::NotAnObject),
        other => panic!("unexpected {:?}", other),
    }
}

#[test]
fn counts_out_of_range_are_decode_errors() {
    let mut members = info_members();
    members[9].1 = uint(u32::MAX as u64 + 1);
    assert_eq!(
        GetInfoResult::from_json(&obj(members)),
        Err(DecodeError::InvalidField("nodeversion".to_string()))
    );
    let mut members = info_members();
    members[1].1 = Json::Number(JsonNumber::NegInt(-1));
    assert_eq!(GetInfoResult::from_json(&obj(members)), Err(DecodeError::InvalidField("blocks".to_string())));
    let mut members = info_members();
    members[1].1 = decimal(2.0);
    assert_eq!(GetInfoResult::from_json(&obj(members)), Err(DecodeError::InvalidField("blocks".to_string())));
}

#[test]
fn largest_counts_decode() {
    let mut members = info_members();
    members[1].1 = uint(u64::MAX);
    members[9].1 = uint(u32::MAX as u64);
    let info = GetInfoResult::from_json(&obj(members)).unwrap();
    assert_eq!(info.blocks, u64::MAX);
    assert_eq!(info.nodeversion, u32::MAX);
}

#[test]
fn transport_result_is_interpreted() {
    let body = envelope(obj(vec![("message", text("bad address"))]), Json::Null);
    match complete_call(RpcMethod::ValidateAddress, Ok(body)) {
        Err(ApiError::RPCError(m)) => assert_eq!(m, "bad address"),
        other => panic!("unexpected {:?}", other),
    }
}
