//! The calls into the `ethabi` crate: the canonical encoding of an argument
//! list and the selector of a function. Nothing in this file is proved; each
//! item states what is taken on trust from `ethabi`.

use crate::abi::{type_models, value_models, AbiType, AbiValue, SpecType, SpecValue};
use crate::limits::fits_encoding;
use ethabi::{ParamType, Token};
use vstd::prelude::*;

verus! {

/// The bytes that `ethabi::encode` returns for an argument list.
pub uninterp spec fn abi_encoding(values: Seq<SpecValue>) -> Seq<u8>;

/// The four bytes that `ethabi::short_signature` returns for a function name
/// and the types of its parameters.
pub uninterp spec fn abi_selector(name: Seq<char>, inputs: Seq<SpecType>) -> [u8; 4];

/// Rewrites a value as the `ethabi::Token` of the same variant and content;
/// addresses and integers go through the `From` impls that read 20 and 32
/// big-endian bytes.
#[verifier::external_body]
fn to_outside_value(value: &AbiValue) -> Token {
    match value {
        AbiValue::Address(bytes) => Token::Address((*bytes).into()),
        AbiValue::FixedBytes(bytes) => Token::FixedBytes(bytes.clone()),
        AbiValue::Bytes(bytes) => Token::Bytes(bytes.clone()),
        AbiValue::Int(word) => Token::Int((*word).into()),
        AbiValue::Uint(word) => Token::Uint((*word).into()),
        AbiValue::Bool(b) => Token::Bool(*b),
        AbiValue::String(s) => Token::String(s.clone()),
        AbiValue::FixedArray(items) => Token::FixedArray(to_outside_values(items)),
        AbiValue::Array(items) => Token::Array(to_outside_values(items)),
        AbiValue::Tuple(items) => Token::Tuple(to_outside_values(items)),
    }
}

/// Rewrites a list of values, member by member and in order.
#[verifier::external_body]
fn to_outside_values(values: &Vec<AbiValue>) -> Vec<Token> {
    values.iter().map(to_outside_value).collect()
}

/// Rewrites a parameter type as the `ethabi::ParamType` of the same variant
/// and content.
#[verifier::external_body]
fn to_outside_type(ty: &AbiType) -> ParamType {
    match ty {
        AbiType::Address => ParamType::Address,
        AbiType::Bytes => ParamType::Bytes,
        AbiType::Int(bits) => ParamType::Int(*bits),
        AbiType::Uint(bits) => ParamType::Uint(*bits),
        AbiType::Bool => ParamType::Bool,
        AbiType::String => ParamType::String,
        AbiType::Array(inner) => ParamType::Array(Box::new(to_outside_type(inner))),
        AbiType::FixedBytes(len) => ParamType::FixedBytes(*len),
        AbiType::FixedArray(inner, len) => {
            ParamType::FixedArray(Box::new(to_outside_type(inner)), *len)
        },
        AbiType::Tuple(members) => ParamType::Tuple(to_outside_types(members)),
    }
}

/// Rewrites a list of parameter types, member by member and in order.
#[verifier::external_body]
fn to_outside_types(types: &Vec<AbiType>) -> Vec<ParamType> {
    types.iter().map(to_outside_type).collect()
}

/// Calls `ethabi::encode` on the argument list.
///
/// Taken on trust: the result depends on the values alone, and an empty
/// list encodes to no bytes. The encoder adds up 32-bit offsets, so lists
/// that may take 4 GiB or more are left out.
#[verifier::external_body]
pub(crate) fn abi_encode(values: &Vec<AbiValue>) -> (bytes: Vec<u8>)
    requires
        fits_encoding(value_models(values@)),
    ensures
        bytes@ == abi_encoding(value_models(values@)),
        values@.len() == 0 ==> bytes@.len() == 0,
{
    ethabi::encode(&to_outside_values(values))
}

/// Calls `ethabi::short_signature` on a function name and the types of its
/// parameters.
///
/// Taken on trust: the result depends on the name and the types alone.
#[verifier::external_body]
pub(crate) fn function_selector(name: &str, inputs: &Vec<AbiType>) -> (selector: [u8; 4])
    ensures
        selector == abi_selector(name@, type_models(inputs@)),
{
    ethabi::short_signature(name, &to_outside_types(inputs))
}

} // verus!
