//! The types of the `ethabi` crate that pass through this library unread.

use vstd::prelude::*;

verus! {

/// `ethabi::Token`, the value that the encoder of `ethabi` takes. It is only
/// made and handed on, never read.
#[verifier::external_type_specification]
#[verifier::external_body]
pub struct ExToken(ethabi::Token);

/// `ethabi::ParamType`, the parameter type that `ethabi` hashes into a
/// selector. It is only made and handed on, never read.
#[verifier::external_type_specification]
#[verifier::external_body]
pub struct ExParamType(ethabi::ParamType);

} // verus!
