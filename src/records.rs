//! The typed results of the recognised methods, decoded from JSON payloads.

use vstd::prelude::*;
use crate::fields::{
    check, count_field, first, flag_field, number_field, take_flag, take_number, take_text,
    take_u32, take_u64, text_field, DecodeError, DecodeFailure,
};
use crate::json::{Json, JsonNumber};

verus! {

/// Node status as reported by `getinfo`. Decimal quantities keep the number
/// as the wire carried it.
#[derive(Debug, PartialEq)]
pub struct GetInfoResult {
    pub balance: JsonNumber,
    pub blocks: u64,
    pub burnaddress: String,
    pub chainname: String,
    pub connections: u64,
    pub description: String,
    pub difficulty: JsonNumber,
    pub errors: String,
    pub nodeaddress: String,
    pub nodeversion: u32,
    pub paytxfee: JsonNumber,
    pub protocol: String,
    pub protocolversion: u32,
    pub proxy: String,
    pub testnet: bool,
    pub version: String,
}

/// The first member of a node-info record that is missing or of the wrong kind, in
/// declaration order.
pub open spec fn info_entries_failure(e: Seq<(String, Json)>) -> Option<DecodeFailure> {
    first(check(number_field(e, "balance"@) is Some, e, "balance"@),
    first(check(count_field(e, "blocks"@, u64::MAX as int) is Some, e, "blocks"@),
    first(check(text_field(e, "burnaddress"@) is Some, e, "burnaddress"@),
    first(check(text_field(e, "chainname"@) is Some, e, "chainname"@),
    first(check(count_field(e, "connections"@, u64::MAX as int) is Some, e, "connections"@),
    first(check(text_field(e, "description"@) is Some, e, "description"@),
    first(check(number_field(e, "difficulty"@) is Some, e, "difficulty"@),
    first(check(text_field(e, "errors"@) is Some, e, "errors"@),
    first(check(text_field(e, "nodeaddress"@) is Some, e, "nodeaddress"@),
    first(check(count_field(e, "nodeversion"@, u32::MAX as int) is Some, e, "nodeversion"@),
    first(check(number_field(e, "paytxfee"@) is Some, e, "paytxfee"@),
    first(check(text_field(e, "protocol"@) is Some, e, "protocol"@),
    first(check(count_field(e, "protocolversion"@, u32::MAX as int) is Some, e, "protocolversion"@),
    first(check(text_field(e, "proxy"@) is Some, e, "proxy"@),
    first(check(flag_field(e, "testnet"@) is Some, e, "testnet"@),
    check(text_field(e, "version"@) is Some, e, "version"@))))))))))))))))
}

/// Why `j` does not decode as a node-info record; none when it does.
pub open spec fn info_failure(j: Json) -> Option<DecodeFailure> {
    match j {
        Json::Object(entries) => info_entries_failure(entries@),
        _ => Some(DecodeFailure::NotAnObject),
    }
}

/// Every field of `r` equals the member of `j` of the same name.
pub open spec fn info_matches(j: Json, r: GetInfoResult) -> bool {
    match j {
        Json::Object(entries) => {
            let e = entries@;
            &&& number_field(e, "balance"@) == Some(r.balance)
            &&& count_field(e, "blocks"@, u64::MAX as int) == Some(r.blocks as int)
            &&& text_field(e, "burnaddress"@) == Some(r.burnaddress@)
            &&& text_field(e, "chainname"@) == Some(r.chainname@)
            &&& count_field(e, "connections"@, u64::MAX as int) == Some(r.connections as int)
            &&& text_field(e, "description"@) == Some(r.description@)
            &&& number_field(e, "difficulty"@) == Some(r.difficulty)
            &&& text_field(e, "errors"@) == Some(r.errors@)
            &&& text_field(e, "nodeaddress"@) == Some(r.nodeaddress@)
            &&& count_field(e, "nodeversion"@, u32::MAX as int) == Some(r.nodeversion as int)
            &&& number_field(e, "paytxfee"@) == Some(r.paytxfee)
            &&& text_field(e, "protocol"@) == Some(r.protocol@)
            &&& count_field(e, "protocolversion"@, u32::MAX as int) == Some(r.protocolversion as int)
            &&& text_field(e, "proxy"@) == Some(r.proxy@)
            &&& flag_field(e, "testnet"@) == Some(r.testnet)
            &&& text_field(e, "version"@) == Some(r.version@)
        },
        _ => false,
    }
}

impl GetInfoResult {
    /// Decodes a node-info record; all fields or none.
    pub fn from_json(j: &Json) -> (r: Result<GetInfoResult, DecodeError>)
        ensures
            match r {
                Ok(x) => info_failure(*j) is None && info_matches(*j, x),
                Err(e) => info_failure(*j) == Some(e@),
            },
    {
        match j {
            Json::Object(entries) => {
                let balance = match take_number(entries, "balance") {
                    Ok(v) => v,
                    Err(e) => return Err(e),
                };
                let blocks = match take_u64(entries, "blocks") {
                    Ok(v) => v,
                    Err(e) => return Err(e),
                };
                let burnaddress = match take_text(entries, "burnaddress") {
                    Ok(v) => v,
                    Err(e) => return Err(e),
                };
                let chainname = match take_text(entries, "chainname") {
                    Ok(v) => v,
                    Err(e) => return Err(e),
                };
                let connections = match take_u64(entries, "connections") {
                    Ok(v) => v,
                    Err(e) => return Err(e),
                };
                let description = match take_text(entries, "description") {
                    Ok(v) => v,
                    Err(e) => return Err(e),
                };
                let difficulty = match take_number(entries, "difficulty") {
                    Ok(v) => v,
                    Err(e) => return Err(e),
                };
                let errors = match take_text(entries, "errors") {
                    Ok(v) => v,
                    Err(e) => return Err(e),
                };
                let nodeaddress = match take_text(entries, "nodeaddress") {
                    Ok(v) => v,
                    Err(e) => return Err(e),
                };
                let nodeversion = match take_u32(entries, "nodeversion") {
                    Ok(v) => v,
                    Err(e) => return Err(e),
                };
                let paytxfee = match take_number(entries, "paytxfee") {
                    Ok(v) => v,
                    Err(e) => return Err(e),
                };
                let protocol = match take_text(entries, "protocol") {
                    Ok(v) => v,
                    Err(e) => return Err(e),
                };
                let protocolversion = match take_u32(entries, "protocolversion") {
                    Ok(v) => v,
                    Err(e) => return Err(e),
                };
                let proxy = match take_text(entries, "proxy") {
                    Ok(v) => v,
                    Err(e) => return Err(e),
                };
                let testnet = match take_flag(entries, "testnet") {
                    Ok(v) => v,
                    Err(e) => return Err(e),
                };
                let version = match take_text(entries, "version") {
                    Ok(v) => v,
                    Err(e) => return Err(e),
                };
                Ok(GetInfoResult { balance, blocks, burnaddress, chainname, connections, description, difficulty, errors, nodeaddress, nodeversion, paytxfee, protocol, protocolversion, proxy, testnet, version })
            },
            _ => Err(DecodeError::NotAnObject),
        }
    }
}

/// One managed address, as listed by `listaddresses`.
#[derive(Debug, PartialEq)]
pub struct ListAddressesResult {
    pub address: String,
    pub ismine: bool,
}

/// The first member of an address entry that is missing or of the wrong kind, in
/// declaration order.
pub open spec fn entry_entries_failure(e: Seq<(String, Json)>) -> Option<DecodeFailure> {
    first(check(text_field(e, "address"@) is Some, e, "address"@),
    check(flag_field(e, "ismine"@) is Some, e, "ismine"@))
}

/// Why `j` does not decode as an address entry; none when it does.
pub open spec fn entry_failure(j: Json) -> Option<DecodeFailure> {
    match j {
        Json::Object(entries) => entry_entries_failure(entries@),
        _ => Some(DecodeFailure::NotAnObject),
    }
}

/// Every field of `r` equals the member of `j` of the same name.
pub open spec fn entry_matches(j: Json, r: ListAddressesResult) -> bool {
    match j {
        Json::Object(entries) => {
            let e = entries@;
            &&& text_field(e, "address"@) == Some(r.address@)
            &&& flag_field(e, "ismine"@) == Some(r.ismine)
        },
        _ => false,
    }
}

impl ListAddressesResult {
    /// Decodes an address entry; all fields or none.
    pub fn from_json(j: &Json) -> (r: Result<ListAddressesResult, DecodeError>)
        ensures
            match r {
                Ok(x) => entry_failure(*j) is None && entry_matches(*j, x),
                Err(e) => entry_failure(*j) == Some(e@),
            },
    {
        match j {
            Json::Object(entries) => {
                let address = match take_text(entries, "address") {
                    Ok(v) => v,
                    Err(e) => return Err(e),
                };
                let ismine = match take_flag(entries, "ismine") {
                    Ok(v) => v,
                    Err(e) => return Err(e),
                };
                Ok(ListAddressesResult { address, ismine })
            },
            _ => Err(DecodeError::NotAnObject),
        }
    }
}

/// The verdict of `validateaddress` on one address.
#[derive(Debug, PartialEq)]
pub struct ValidateAddress {
    pub account: String,
    pub address: String,
    pub iscompressed: bool,
    pub ismine: bool,
    pub isvalid: bool,
    pub pubkey: String,
    pub synchronized: bool,
}

/// The first member of an address verdict that is missing or of the wrong kind, in
/// declaration order.
pub open spec fn validation_entries_failure(e: Seq<(String, Json)>) -> Option<DecodeFailure> {
    first(check(text_field(e, "account"@) is Some, e, "account"@),
    first(check(text_field(e, "address"@) is Some, e, "address"@),
    first(check(flag_field(e, "iscompressed"@) is Some, e, "iscompressed"@),
    first(check(flag_field(e, "ismine"@) is Some, e, "ismine"@),
    first(check(flag_field(e, "isvalid"@) is Some, e, "isvalid"@),
    first(check(text_field(e, "pubkey"@) is Some, e, "pubkey"@),
    check(flag_field(e, "synchronized"@) is Some, e, "synchronized"@)))))))
}

/// Why `j` does not decode as an address verdict; none when it does.
pub open spec fn validation_failure(j: Json) -> Option<DecodeFailure> {
    match j {
        Json::Object(entries) => validation_entries_failure(entries@),
        _ => Some(DecodeFailure::NotAnObject),
    }
}

/// Every field of `r` equals the member of `j` of the same name.
pub open spec fn validation_matches(j: Json, r: ValidateAddress) -> bool {
    match j {
        Json::Object(entries) => {
            let e = entries@;
            &&& text_field(e, "account"@) == Some(r.account@)
            &&& text_field(e, "address"@) == Some(r.address@)
            &&& flag_field(e, "iscompressed"@) == Some(r.iscompressed)
            &&& flag_field(e, "ismine"@) == Some(r.ismine)
            &&& flag_field(e, "isvalid"@) == Some(r.isvalid)
            &&& text_field(e, "pubkey"@) == Some(r.pubkey@)
            &&& flag_field(e, "synchronized"@) == Some(r.synchronized)
        },
        _ => false,
    }
}

impl ValidateAddress {
    /// Decodes an address verdict; all fields or none.
    pub fn from_json(j: &Json) -> (r: Result<ValidateAddress, DecodeError>)
        ensures
            match r {
                Ok(x) => validation_failure(*j) is None && validation_matches(*j, x),
                Err(e) => validation_failure(*j) == Some(e@),
            },
    {
        match j {
            Json::Object(entries) => {
                let account = match take_text(entries, "account") {
                    Ok(v) => v,
                    Err(e) => return Err(e),
                };
                let address = match take_text(entries, "address") {
                    Ok(v) => v,
                    Err(e) => return Err(e),
                };
                let iscompressed = match take_flag(entries, "iscompressed") {
                    Ok(v) => v,
                    Err(e) => return Err(e),
                };
                let ismine = match take_flag(entries, "ismine") {
                    Ok(v) => v,
                    Err(e) => return Err(e),
                };
                let isvalid = match take_flag(entries, "isvalid") {
                    Ok(v) => v,
                    Err(e) => return Err(e),
                };
                let pubkey = match take_text(entries, "pubkey") {
                    Ok(v) => v,
                    Err(e) => return Err(e),
                };
                let synchronized = match take_flag(entries, "synchronized") {
                    Ok(v) => v,
                    Err(e) => return Err(e),
                };
                Ok(ValidateAddress { account, address, iscompressed, ismine, isvalid, pubkey, synchronized })
            },
            _ => Err(DecodeError::NotAnObject),
        }
    }
}

/// The first entry among the first `n` of `items` that does not decode.
pub open spec fn entries_failure_upto(items: Seq<Json>, n: int) -> Option<DecodeFailure>
    decreases n,
{
    if n <= 0 {
        None
    } else {
        first(entries_failure_upto(items, n - 1), entry_failure(items[n - 1]))
    }
}

/// A failure among the first `n` entries is the first failure of any longer prefix.
proof fn lemma_failure_upto_stays(items: Seq<Json>, n: int, m: int)
    requires
        n <= m,
        entries_failure_upto(items, n) is Some,
    ensures
        entries_failure_upto(items, m) == entries_failure_upto(items, n),
    decreases m - n,
{
    if n < m {
        lemma_failure_upto_stays(items, n, m - 1);
    }
}

/// Why `j` does not decode as an address list; none when it does.
pub open spec fn address_list_failure(j: Json) -> Option<DecodeFailure> {
    match j {
        Json::Array(items) => entries_failure_upto(items@, items@.len() as int),
        _ => Some(DecodeFailure::NotAnArray),
    }
}

/// `v` holds one entry per element of `j`, in order, each equal to it.
pub open spec fn address_list_matches(j: Json, v: Seq<ListAddressesResult>) -> bool {
    match j {
        Json::Array(items) => {
            &&& v.len() == items@.len()
            &&& forall|i: int| 0 <= i < v.len() ==> entry_matches(#[trigger] items@[i], v[i])
        },
        _ => false,
    }
}

/// Decodes the payload of `listaddresses`; all entries or none.
pub fn decode_address_list(j: &Json) -> (r: Result<Vec<ListAddressesResult>, DecodeError>)
    ensures
        match r {
            Ok(v) => address_list_failure(*j) is None && address_list_matches(*j, v@),
            Err(e) => address_list_failure(*j) == Some(e@),
        },
{
    match j {
        Json::Array(items) => {
            let mut out: Vec<ListAddressesResult> = Vec::new();
            let mut i: usize = 0;
            while i < items.len()
                invariant
                    i <= items@.len(),
                    out@.len() == i,
                    address_list_failure(*j) == entries_failure_upto(items@, items@.len() as int),
                    entries_failure_upto(items@, i as int) is None,
                    forall|k: int| 0 <= k < i ==> entry_matches(#[trigger] items@[k], out@[k]),
                decreases items@.len() - i,
            {
                match ListAddressesResult::from_json(&items[i]) {
                    Ok(x) => out.push(x),
                    Err(e) => {
                        assert(entries_failure_upto(items@, i + 1) == Some(e@));
                        proof {
                            lemma_failure_upto_stays(items@, i + 1, items@.len() as int);
                        }
                        return Err(e);
                    },
                }
                i = i + 1;
            }
            Ok(out)
        },
        _ => Err(DecodeError::NotAnArray),
    }
}

/// The methods of the node that this client knows how to call.
#[derive(Clone, Copy, Debug, PartialEq, Eq, Structural)]
pub enum RpcMethod {
    GetInfo,
    ListAddresses,
    ValidateAddress,
}

/// The name of a method on the wire.
pub open spec fn method_name(m: RpcMethod) -> Seq<char> {
    match m {
        RpcMethod::GetInfo => "getinfo"@,
        RpcMethod::ListAddresses => "listaddresses"@,
        RpcMethod::ValidateAddress => "validateaddress"@,
    }
}

impl RpcMethod {
    pub fn name(&self) -> (r: &'static str)
        ensures
            r@ == method_name(*self),
    {
        match self {
            RpcMethod::GetInfo => "getinfo",
            RpcMethod::ListAddresses => "listaddresses",
            RpcMethod::ValidateAddress => "validateaddress",
        }
    }
}

/// The result of a call, in the shape its method returns.
#[derive(Debug, PartialEq)]
pub enum ApiResult {
    Info(GetInfoResult),
    Addresses(Vec<ListAddressesResult>),
    ValidateAddress(ValidateAddress),
}

/// Why `j` does not decode as the result of `m`; none when it does.
pub open spec fn result_failure(m: RpcMethod, j: Json) -> Option<DecodeFailure> {
    match m {
        RpcMethod::GetInfo => info_failure(j),
        RpcMethod::ListAddresses => address_list_failure(j),
        RpcMethod::ValidateAddress => validation_failure(j),
    }
}

/// `r` has the shape that `m` returns and equals `j` field by field.
pub open spec fn result_matches(m: RpcMethod, j: Json, r: ApiResult) -> bool {
    match m {
        RpcMethod::GetInfo => match r {
            ApiResult::Info(x) => info_matches(j, x),
            _ => false,
        },
        RpcMethod::ListAddresses => match r {
            ApiResult::Addresses(v) => address_list_matches(j, v@),
            _ => false,
        },
        RpcMethod::ValidateAddress => match r {
            ApiResult::ValidateAddress(x) => validation_matches(j, x),
            _ => false,
        },
    }
}

impl ApiResult {
    /// Decodes `j` in the shape that `method` returns.
    pub fn decode(method: RpcMethod, j: &Json) -> (r: Result<ApiResult, DecodeError>)
        ensures
            match r {
                Ok(x) => result_failure(method, *j) is None && result_matches(method, *j, x),
                Err(e) => result_failure(method, *j) == Some(e@),
            },
    {
        match method {
            RpcMethod::GetInfo => match GetInfoResult::from_json(j) {
                Ok(x) => Ok(ApiResult::Info(x)),
                Err(e) => Err(e),
            },
            RpcMethod::ListAddresses => match decode_address_list(j) {
                Ok(v) => Ok(ApiResult::Addresses(v)),
                Err(e) => Err(e),
            },
            RpcMethod::ValidateAddress => match ValidateAddress::from_json(j) {
                Ok(x) => Ok(ApiResult::ValidateAddress(x)),
                Err(e) => Err(e),
            },
        }
    }
}

} // verus!
