//! The transaction builder: from a contract and an intent, deployment or
//! call, to an unsigned transaction or the reason why none can be built.

use crate::abi::{
    conforms, first_nonconforming, is_first_mismatch, prefix_conforms, type_models, value_models,
    AbiType, AbiValue, SpecType, SpecValue,
};
use crate::contract::{lookup, EthContract, SpecContract};
use crate::encoder::{abi_encode, abi_encoding, abi_selector, function_selector};
use crate::error::{BuildError, EncodingError};
use crate::limits::{count_words, fits_encoding};
use crate::transaction::{sandbox_transaction, SpecTransaction, UnsignedTransaction};
use vstd::prelude::*;

verus! {

/// The position of the first argument that does not conform to the type
/// declared at its position.
pub open spec fn first_mismatch(args: Seq<SpecValue>, inputs: Seq<SpecType>) -> int {
    choose|index: int| is_first_mismatch(args, inputs, index)
}

/// The first mismatch is the one position that [`is_first_mismatch`] holds
/// of.
pub proof fn lemma_first_mismatch_is(args: Seq<SpecValue>, inputs: Seq<SpecType>, index: int)
    requires
        is_first_mismatch(args, inputs, index),
    ensures
        first_mismatch(args, inputs) == index,
{
    let chosen = first_mismatch(args, inputs);
    assert(is_first_mismatch(args, inputs, chosen));
    if chosen < index {
        assert(conforms(args[chosen], inputs[chosen]));
    } else if index < chosen {
        assert(conforms(args[index], inputs[index]));
    }
}

/// Why an argument list cannot be encoded for the declared parameters, or
/// `None` where it can: the number of arguments is checked first, then
/// their types from the first argument on, then their size.
pub open spec fn argument_check(args: Seq<SpecValue>, inputs: Seq<SpecType>) -> Option<
    EncodingError,
> {
    if args.len() != inputs.len() {
        Some(
            EncodingError::ArgumentCount {
                expected: inputs.len() as usize,
                actual: args.len() as usize,
            },
        )
    } else if !prefix_conforms(args, inputs, args.len() as int) {
        Some(EncodingError::ArgumentType { index: first_mismatch(args, inputs) as usize })
    } else if !fits_encoding(args) {
        Some(EncodingError::TooLarge)
    } else {
        None
    }
}

/// The encoding of an argument list: no bytes for no arguments, and what
/// the encoder gives for the values otherwise.
pub open spec fn encoded_arguments(args: Seq<SpecValue>) -> Seq<u8> {
    if args.len() == 0 {
        Seq::empty()
    } else {
        abi_encoding(args)
    }
}

/// The model of what a builder returned: the model of the transaction, or
/// the error as it is.
pub open spec fn outcome_of(built: Result<UnsignedTransaction, BuildError>) -> Result<
    SpecTransaction,
    BuildError,
> {
    match built {
        Ok(tx) => Ok(tx@),
        Err(e) => Err(e),
    }
}

/// What building a deployment gives: the transaction without destination
/// whose payload is the code followed by the encoded arguments, or the
/// reason why the arguments cannot be encoded for the constructor.
pub open spec fn deploy_outcome(contract: SpecContract, nonce: u128, args: Seq<SpecValue>) -> Result<
    SpecTransaction,
    BuildError,
> {
    match argument_check(args, contract.constructor_inputs()) {
        Some(e) => Err(BuildError::Encoding(e)),
        None => Ok(sandbox_transaction(nonce, None, contract.code + encoded_arguments(args))),
    }
}

/// What building a call gives: the transaction to the destination whose
/// payload is the selector of the function followed by the encoded
/// arguments, or the reason why the function cannot be picked or the
/// arguments cannot be encoded for it.
pub open spec fn call_outcome(
    contract: SpecContract,
    destination: Seq<u8>,
    nonce: u128,
    name: Seq<char>,
    args: Seq<SpecValue>,
) -> Result<SpecTransaction, BuildError> {
    match lookup(contract.functions, name) {
        Err(e) => Err(BuildError::Lookup(e)),
        Ok(index) => {
            let inputs = contract.functions[index].inputs;
            match argument_check(args, inputs) {
                Some(e) => Err(BuildError::Encoding(e)),
                None => Ok(
                    sandbox_transaction(
                        nonce,
                        Some(destination),
                        abi_selector(name, inputs)@ + encoded_arguments(args),
                    ),
                ),
            }
        },
    }
}

/// Checks an argument list against the declared parameter types.
pub fn check_arguments(args: &Vec<AbiValue>, inputs: &Vec<AbiType>) -> (checked: Result<
    (),
    EncodingError,
>)
    ensures
        match checked {
            Ok(_) => argument_check(value_models(args@), type_models(inputs@)) is None,
            Err(e) => argument_check(value_models(args@), type_models(inputs@)) == Some(e),
        },
{
    let ghost values = value_models(args@);
    let ghost types = type_models(inputs@);
    if args.len() != inputs.len() {
        return Err(EncodingError::ArgumentCount { expected: inputs.len(), actual: args.len() });
    }
    match first_nonconforming(args, inputs) {
        Some(index) => {
            proof {
                lemma_first_mismatch_is(values, types, index as int);
            }
            return Err(EncodingError::ArgumentType { index });
        },
        None => {},
    }
    match count_words(args) {
        Some(_) => Ok(()),
        None => Err(EncodingError::TooLarge),
    }
}

/// Checks an argument list against the declared parameter types and
/// encodes it.
pub fn encode_arguments(args: &Vec<AbiValue>, inputs: &Vec<AbiType>) -> (encoded: Result<
    Vec<u8>,
    EncodingError,
>)
    ensures
        match encoded {
            Ok(bytes) => argument_check(value_models(args@), type_models(inputs@)) is None
                && bytes@ == encoded_arguments(value_models(args@)),
            Err(e) => argument_check(value_models(args@), type_models(inputs@)) == Some(e),
        },
{
    match check_arguments(args, inputs) {
        Ok(_) => {
            let bytes = abi_encode(args);
            assert(bytes@ =~= encoded_arguments(value_models(args@)));
            Ok(bytes)
        },
        Err(e) => Err(e),
    }
}

/// Joins the two parts of a payload: the code and the encoded constructor
/// arguments, or the selector and the encoded arguments.
pub fn join_payload(head: &[u8], tail: &[u8]) -> (payload: Vec<u8>)
    ensures
        payload@ == head@ + tail@,
{
    let mut payload: Vec<u8> = Vec::new();
    let mut i: usize = 0;
    while i < head.len()
        invariant
            i <= head.len(),
            payload@ == head@.subrange(0, i as int),
        decreases head.len() - i,
    {
        payload.push(head[i]);
        i += 1;
    }
    let mut j: usize = 0;
    while j < tail.len()
        invariant
            j <= tail.len(),
            payload@ == head@ + tail@.subrange(0, j as int),
        decreases tail.len() - j,
    {
        payload.push(tail[j]);
        j += 1;
    }
    payload
}

/// Builds the transaction that deploys the contract with the given
/// constructor arguments.
///
/// A contract without a declared constructor takes no arguments.
pub fn build_deploy(contract: &EthContract, nonce: u128, args: &Vec<AbiValue>) -> (built: Result<
    UnsignedTransaction,
    BuildError,
>)
    ensures
        outcome_of(built) == deploy_outcome(contract@, nonce, value_models(args@)),
{
    let none: Vec<AbiType> = Vec::new();
    let inputs = match &contract.constructor {
        Some(inputs) => inputs,
        None => &none,
    };
    assert(type_models(inputs@) =~= contract@.constructor_inputs());
    match encode_arguments(args, inputs) {
        Ok(encoded) => {
            let data = join_payload(contract.code.as_slice(), encoded.as_slice());
            Ok(UnsignedTransaction::deploy(nonce, data))
        },
        Err(e) => Err(BuildError::Encoding(e)),
    }
}

/// Builds the transaction that calls the named function of the contract
/// deployed at `destination` with the given arguments.
pub fn build_call(
    contract: &EthContract,
    destination: [u8; 20],
    nonce: u128,
    function_name: &str,
    args: &Vec<AbiValue>,
) -> (built: Result<UnsignedTransaction, BuildError>)
    ensures
        outcome_of(built) == call_outcome(
            contract@,
            destination@,
            nonce,
            function_name@,
            value_models(args@),
        ),
{
    let index = match contract.find_function(function_name) {
        Ok(index) => index,
        Err(e) => {
            return Err(BuildError::Lookup(e));
        },
    };
    let function = &contract.functions[index];
    assert(contract@.functions[index as int].inputs == type_models(function.inputs@));
    match encode_arguments(args, &function.inputs) {
        Ok(encoded) => {
            let selector = function_selector(function_name, &function.inputs);
            let data = join_payload(selector.as_slice(), encoded.as_slice());
            Ok(UnsignedTransaction::call(destination, nonce, data))
        },
        Err(e) => Err(BuildError::Encoding(e)),
    }
}

impl EthContract {
    /// Builds the transaction that deploys this contract with the given
    /// constructor arguments.
    pub fn deploy_transaction(&self, nonce: u128, args: &Vec<AbiValue>) -> (built: Result<
        UnsignedTransaction,
        BuildError,
    >)
        ensures
            outcome_of(built) == deploy_outcome(self@, nonce, value_models(args@)),
    {
        build_deploy(self, nonce, args)
    }
}

} // verus!
