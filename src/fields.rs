//! Reading one typed member out of a JSON object.

use vstd::prelude::*;
use crate::json::{find_member, member_of, number_int, Json, JsonNumber};

verus! {

/// Why a payload did not decode into the record expected of it.
#[derive(Debug, PartialEq)]
pub enum DecodeError {
    NotAnObject,
    NotAnArray,
    MissingField(String),
    InvalidField(String),
}

/// The mathematical form of a [`DecodeError`].
pub enum DecodeFailure {
    NotAnObject,
    NotAnArray,
    MissingField(Seq<char>),
    InvalidField(Seq<char>),
}

impl View for DecodeError {
    type V = DecodeFailure;

    open spec fn view(&self) -> DecodeFailure {
        match self {
            DecodeError::NotAnObject => DecodeFailure::NotAnObject,
            DecodeError::NotAnArray => DecodeFailure::NotAnArray,
            DecodeError::MissingField(n) => DecodeFailure::MissingField(n@),
            DecodeError::InvalidField(n) => DecodeFailure::InvalidField(n@),
        }
    }
}

pub open spec fn text_of(v: Json) -> Option<Seq<char>> {
    match v {
        Json::String(s) => Some(s@),
        _ => None,
    }
}

pub open spec fn flag_of(v: Json) -> Option<bool> {
    match v {
        Json::Bool(b) => Some(b),
        _ => None,
    }
}

pub open spec fn number_of(v: Json) -> Option<JsonNumber> {
    match v {
        Json::Number(n) => Some(n),
        _ => None,
    }
}

/// A whole number in `0 ..= max`.
pub open spec fn count_of(v: Json, max: int) -> Option<int> {
    match v {
        Json::Number(n) => match number_int(n) {
            Some(k) => if 0 <= k <= max { Some(k) } else { None },
            None => None,
        },
        _ => None,
    }
}

pub open spec fn text_field(e: Seq<(String, Json)>, name: Seq<char>) -> Option<Seq<char>> {
    match member_of(e, name) {
        Some(v) => text_of(v),
        None => None,
    }
}

pub open spec fn flag_field(e: Seq<(String, Json)>, name: Seq<char>) -> Option<bool> {
    match member_of(e, name) {
        Some(v) => flag_of(v),
        None => None,
    }
}

pub open spec fn number_field(e: Seq<(String, Json)>, name: Seq<char>) -> Option<JsonNumber> {
    match member_of(e, name) {
        Some(v) => number_of(v),
        None => None,
    }
}

pub open spec fn count_field(e: Seq<(String, Json)>, name: Seq<char>, max: int) -> Option<int> {
    match member_of(e, name) {
        Some(v) => count_of(v, max),
        None => None,
    }
}

/// What is wrong with the member `name` once it is known not to decode.
pub open spec fn field_failure(e: Seq<(String, Json)>, name: Seq<char>) -> DecodeFailure {
    if member_of(e, name) is None {
        DecodeFailure::MissingField(name)
    } else {
        DecodeFailure::InvalidField(name)
    }
}

/// No failure when the member decoded, else the failure of `name`.
pub open spec fn check(decoded: bool, e: Seq<(String, Json)>, name: Seq<char>) -> Option<
    DecodeFailure,
> {
    if decoded {
        None
    } else {
        Some(field_failure(e, name))
    }
}

/// The earlier of two failures.
pub open spec fn first(a: Option<DecodeFailure>, b: Option<DecodeFailure>) -> Option<DecodeFailure> {
    if a is Some {
        a
    } else {
        b
    }
}

fn failure_of(entries: &Vec<(String, Json)>, name: &str, found: bool) -> (r: DecodeError)
    requires
        found == member_of(entries@, name@) is Some,
    ensures
        r@ == field_failure(entries@, name@),
{
    if found {
        DecodeError::InvalidField(String::from_str(name))
    } else {
        DecodeError::MissingField(String::from_str(name))
    }
}

pub fn take_text(entries: &Vec<(String, Json)>, name: &str) -> (r: Result<String, DecodeError>)
    ensures
        match r {
            Ok(s) => text_field(entries@, name@) == Some(s@),
            Err(e) => text_field(entries@, name@) is None && e@ == field_failure(entries@, name@),
        },
{
    match find_member(entries, name) {
        Some(v) => match v {
            Json::String(s) => Ok(s.clone()),
            _ => Err(failure_of(entries, name, true)),
        },
        None => Err(failure_of(entries, name, false)),
    }
}

pub fn take_flag(entries: &Vec<(String, Json)>, name: &str) -> (r: Result<bool, DecodeError>)
    ensures
        match r {
            Ok(b) => flag_field(entries@, name@) == Some(b),
            Err(e) => flag_field(entries@, name@) is None && e@ == field_failure(entries@, name@),
        },
{
    match find_member(entries, name) {
        Some(v) => match v {
            Json::Bool(b) => Ok(*b),
            _ => Err(failure_of(entries, name, true)),
        },
        None => Err(failure_of(entries, name, false)),
    }
}

pub fn take_number(entries: &Vec<(String, Json)>, name: &str) -> (r: Result<JsonNumber, DecodeError>)
    ensures
        match r {
            Ok(n) => number_field(entries@, name@) == Some(n),
            Err(e) => number_field(entries@, name@) is None && e@ == field_failure(entries@, name@),
        },
{
    match find_member(entries, name) {
        Some(v) => match v {
            Json::Number(n) => Ok(*n),
            _ => Err(failure_of(entries, name, true)),
        },
        None => Err(failure_of(entries, name, false)),
    }
}

pub fn take_u64(entries: &Vec<(String, Json)>, name: &str) -> (r: Result<u64, DecodeError>)
    ensures
        match r {
            Ok(n) => count_field(entries@, name@, u64::MAX as int) == Some(n as int),
            Err(e) => count_field(entries@, name@, u64::MAX as int) is None && e@ == field_failure(
                entries@,
                name@,
            ),
        },
{
    match find_member(entries, name) {
        Some(v) => match v {
            Json::Number(JsonNumber::PosInt(n)) => Ok(*n),
            Json::Number(JsonNumber::NegInt(n)) => if *n >= 0 {
                Ok(*n as u64)
            } else {
                Err(failure_of(entries, name, true))
            },
            _ => Err(failure_of(entries, name, true)),
        },
        None => Err(failure_of(entries, name, false)),
    }
}

pub fn take_u32(entries: &Vec<(String, Json)>, name: &str) -> (r: Result<u32, DecodeError>)
    ensures
        match r {
            Ok(n) => count_field(entries@, name@, u32::MAX as int) == Some(n as int),
            Err(e) => count_field(entries@, name@, u32::MAX as int) is None && e@ == field_failure(
                entries@,
                name@,
            ),
        },
{
    match find_member(entries, name) {
        Some(v) => match v {
            Json::Number(JsonNumber::PosInt(n)) => if *n <= u32::MAX as u64 {
                Ok(*n as u32)
            } else {
                Err(failure_of(entries, name, true))
            },
            Json::Number(JsonNumber::NegInt(n)) => if 0 <= *n && *n <= u32::MAX as i64 {
                Ok(*n as u32)
            } else {
                Err(failure_of(entries, name, true))
            },
            _ => Err(failure_of(entries, name, true)),
        },
        None => Err(failure_of(entries, name, false)),
    }
}

} // verus!
