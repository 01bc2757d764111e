//! The handle of a deployed `Random` contract.

use crate::abi::{value_models, AbiValue, SpecValue};
use crate::builder::{build_call, call_outcome, outcome_of};
use crate::contract::EthContract;
use crate::error::BuildError;
use crate::transaction::UnsignedTransaction;
use vstd::prelude::*;

verus! {

/// The name of the function that a [`Random`] contract is asked for.
pub open spec fn random_seed_name() -> Seq<char> {
    "randomSeed"@
}

/// A deployed contract that hands out random seeds: the contract together
/// with the address that its deployment returned.
#[derive(Debug, PartialEq, Eq)]
pub struct Random {
    /// The contract that was deployed.
    pub contract: EthContract,
    /// The address at which it was deployed.
    pub address: [u8; 20],
}

impl Random {
    /// Binds a contract to the address that its deployment returned.
    pub fn new(contract: EthContract, address: [u8; 20]) -> (handle: Random)
        ensures
            handle.contract == contract,
            handle.address == address,
    {
        Random { contract, address }
    }

    /// Binds a contract to the address in the output of its deployment, or
    /// gives `None` where the output is not a 20-byte address.
    pub fn from_deploy_output(contract: EthContract, output: &[u8]) -> (handle: Option<Random>)
        ensures
            match handle {
                Some(h) => output@.len() == 20 && h.contract == contract && h.address@ == output@,
                None => output@.len() != 20,
            },
    {
        if output.len() != 20 {
            return None;
        }
        let mut address = [0u8; 20];
        let mut i: usize = 0;
        while i < 20
            invariant
                i <= 20,
                output@.len() == 20,
                forall|j: int| 0 <= j < i ==> address@[j] == output@[j],
            decreases 20 - i,
        {
            address[i] = output[i];
            i += 1;
        }
        assert(address@ =~= output@);
        Some(Random { contract, address })
    }

    /// Builds the transaction that asks the deployed contract for a random
    /// seed: a call of `randomSeed` without arguments.
    pub fn random_seed_transaction(&self, nonce: u128) -> (built: Result<
        UnsignedTransaction,
        BuildError,
    >)
        ensures
            outcome_of(built) == call_outcome(
                self.contract@,
                self.address@,
                nonce,
                random_seed_name(),
                Seq::empty(),
            ),
    {
        let args: Vec<AbiValue> = Vec::new();
        assert(value_models(args@) =~= Seq::<SpecValue>::empty());
        build_call(&self.contract, self.address, nonce, "randomSeed", &args)
    }
}

} // verus!
