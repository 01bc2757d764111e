//! What the builder guarantees of every contract and every argument list,
//! stated over the outcomes of its two operations and proved from their
//! definitions.

use crate::abi::SpecValue;
use crate::builder::{argument_check, call_outcome, deploy_outcome, encoded_arguments};
use crate::contract::{lemma_count_zero, lookup, SpecContract};
use crate::encoder::abi_selector;
use crate::error::{BuildError, EncodingError, LookupError};
use crate::limits::{total_words, words_upto};
use crate::transaction::{sandbox_transaction, SpecTransaction};
use vstd::prelude::*;

verus! {

/// Where the arguments can be encoded for the constructor, the deployment is
/// built: it has no destination, keeps the nonce and the policy of the
/// sandbox, and its payload is the code followed by the encoded arguments.
pub proof fn deploy_carries_code_then_arguments(
    contract: SpecContract,
    nonce: u128,
    args: Seq<SpecValue>,
)
    requires
        argument_check(args, contract.constructor_inputs()) is None,
    ensures
        deploy_outcome(contract, nonce, args) is Ok,
        deploy_outcome(contract, nonce, args)->Ok_0.is_creation(),
        deploy_outcome(contract, nonce, args)->Ok_0.follows_policy(),
        deploy_outcome(contract, nonce, args)->Ok_0.nonce == nonce,
        deploy_outcome(contract, nonce, args)->Ok_0.data == contract.code + encoded_arguments(
            args,
        ),
{
}

/// The payload of a deployment depends on the code, the constructor's
/// parameter types and the arguments alone: two contracts that agree on
/// these give the same payload for the same arguments, whatever the nonces
/// and the function tables, and fail alike where they fail.
pub proof fn deploy_payload_is_determined(
    first: SpecContract,
    first_nonce: u128,
    second: SpecContract,
    second_nonce: u128,
    args: Seq<SpecValue>,
)
    requires
        first.code == second.code,
        first.constructor_inputs() == second.constructor_inputs(),
    ensures
        match (
            deploy_outcome(first, first_nonce, args),
            deploy_outcome(second, second_nonce, args),
        ) {
            (Ok(a), Ok(b)) => a.data == b.data,
            (Err(a), Err(b)) => a == b,
            _ => false,
        },
{
}

/// A call that is built starts with the four bytes of the selector of the
/// function that was picked, which the name and the declared parameter
/// types fix.
pub proof fn call_payload_starts_with_selector(
    contract: SpecContract,
    destination: Seq<u8>,
    nonce: u128,
    name: Seq<char>,
    args: Seq<SpecValue>,
)
    requires
        call_outcome(contract, destination, nonce, name, args) is Ok,
    ensures
        lookup(contract.functions, name) is Ok,
        call_outcome(contract, destination, nonce, name, args)->Ok_0.data.len() >= 4,
        call_outcome(contract, destination, nonce, name, args)->Ok_0.data.subrange(0, 4)
            == abi_selector(
            name,
            contract.functions[lookup(contract.functions, name)->Ok_0].inputs,
        )@,
{
    let index = lookup(contract.functions, name)->Ok_0;
    let selector = abi_selector(name, contract.functions[index].inputs)@;
    let data = call_outcome(contract, destination, nonce, name, args)->Ok_0.data;
    assert(data == selector + encoded_arguments(args));
    assert(data.subrange(0, 4) =~= selector);
}

/// The first four bytes of a call do not depend on the argument values, the
/// destination or the nonce: two calls of one function of one contract
/// start alike.
pub proof fn selector_ignores_arguments(
    contract: SpecContract,
    name: Seq<char>,
    first_destination: Seq<u8>,
    first_nonce: u128,
    first_args: Seq<SpecValue>,
    second_destination: Seq<u8>,
    second_nonce: u128,
    second_args: Seq<SpecValue>,
)
    requires
        call_outcome(contract, first_destination, first_nonce, name, first_args) is Ok,
        call_outcome(contract, second_destination, second_nonce, name, second_args) is Ok,
    ensures
        ({
            let first = call_outcome(contract, first_destination, first_nonce, name, first_args);
            let second = call_outcome(
                contract,
                second_destination,
                second_nonce,
                name,
                second_args,
            );
            first->Ok_0.data.subrange(0, 4) == second->Ok_0.data.subrange(0, 4)
        }),
{
    call_payload_starts_with_selector(contract, first_destination, first_nonce, name, first_args);
    call_payload_starts_with_selector(
        contract,
        second_destination,
        second_nonce,
        name,
        second_args,
    );
}

/// A call of a name that no function of the table carries fails with
/// `NotFound`, whatever the arguments.
pub proof fn unknown_function_is_not_found(
    contract: SpecContract,
    destination: Seq<u8>,
    nonce: u128,
    name: Seq<char>,
    args: Seq<SpecValue>,
)
    requires
        forall|i: int| 0 <= i < contract.functions.len() ==> (#[trigger] contract.functions[i]).name
            != name,
    ensures
        call_outcome(contract, destination, nonce, name, args) == Err::<
            SpecTransaction,
            BuildError,
        >(BuildError::Lookup(LookupError::NotFound)),
{
    lemma_count_zero(contract.functions, name, contract.functions.len() as int);
}

/// A deployment with another number of arguments than the constructor
/// declares fails with `ArgumentCount`, which carries both numbers.
pub proof fn wrong_argument_count_is_reported(
    contract: SpecContract,
    nonce: u128,
    args: Seq<SpecValue>,
)
    requires
        args.len() != contract.constructor_inputs().len(),
    ensures
        deploy_outcome(contract, nonce, args) == Err::<SpecTransaction, BuildError>(
            BuildError::Encoding(
                EncodingError::ArgumentCount {
                    expected: contract.constructor_inputs().len() as usize,
                    actual: args.len() as usize,
                },
            ),
        ),
{
}

/// Two calls that differ in the nonce alone give transactions that differ
/// in the nonce alone, or fail with the same error.
pub proof fn nonce_changes_the_nonce_alone(
    contract: SpecContract,
    destination: Seq<u8>,
    first_nonce: u128,
    second_nonce: u128,
    name: Seq<char>,
    args: Seq<SpecValue>,
)
    ensures
        match (
            call_outcome(contract, destination, first_nonce, name, args),
            call_outcome(contract, destination, second_nonce, name, args),
        ) {
            (Ok(a), Ok(b)) => a.nonce == first_nonce && b.nonce == second_nonce && a == (
                SpecTransaction { nonce: first_nonce, ..b }
            ),
            (Err(a), Err(b)) => a == b,
            _ => false,
        },
{
}

/// The destination tells a deployment from a call: a deployment that is
/// built has none, a call that is built has the destination it was asked
/// for, and both keep the chain, fee price, value and gas allowance of the
/// sandbox.
pub proof fn destination_tells_deployment_from_call(
    contract: SpecContract,
    destination: Seq<u8>,
    nonce: u128,
    name: Seq<char>,
    deploy_args: Seq<SpecValue>,
    call_args: Seq<SpecValue>,
)
    requires
        destination.len() == 20,
    ensures
        deploy_outcome(contract, nonce, deploy_args) matches Ok(tx) ==> tx.is_creation()
            && tx.follows_policy(),
        call_outcome(contract, destination, nonce, name, call_args) matches Ok(tx) ==> tx.to
            == Some(destination) && !tx.is_creation() && tx.follows_policy(),
{
}

/// A contract without a declared constructor deploys with no arguments, and
/// the payload is its code and nothing more.
pub proof fn deploy_without_constructor_carries_code(contract: SpecContract, nonce: u128)
    requires
        contract.constructor is None,
    ensures
        deploy_outcome(contract, nonce, Seq::empty()) == Ok::<SpecTransaction, BuildError>(
            sandbox_transaction(nonce, None, contract.code),
        ),
{
    let args = Seq::<SpecValue>::empty();
    assert(words_upto(args, 0) == 0);
    assert(total_words(args) == 0);
    assert(contract.code + encoded_arguments(args) =~= contract.code);
}

} // verus!
