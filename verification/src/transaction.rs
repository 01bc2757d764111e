//! The unsigned legacy transaction and the fixed policy of the sandbox.

use vstd::prelude::*;

verus! {

/// Chain identifier of the local Aurora network.
pub const AURORA_LOCAL_CHAIN_ID: u64 = 1313161556;

/// Fee price of every transaction: the sandbox has no fee market.
pub const GAS_PRICE: u128 = 0;

/// Value transferred by every transaction.
pub const TRANSFER_VALUE: u128 = 0;

/// Gas allowance of every transaction: the largest 64-bit number, which
/// leaves execution in the sandbox unmetered.
pub const GAS_ALLOWANCE: u128 = 0xffff_ffff_ffff_ffff;

/// A legacy transaction before it is signed, its fields in the order in
/// which they are serialised for signing.
#[derive(Debug, Clone, PartialEq, Eq)]
pub struct UnsignedTransaction {
    /// Identifier of the chain the transaction is meant for.
    pub chain: u64,
    /// Sequence number of the transaction for its signer.
    pub nonce: u128,
    /// Price offered per unit of gas.
    pub gas_price: u128,
    /// Account called; `None` when the transaction creates a contract.
    pub to: Option<[u8; 20]>,
    /// Value transferred.
    pub value: u128,
    /// Payload: code and constructor arguments, or selector and arguments.
    pub data: Vec<u8>,
    /// Gas allowance.
    pub gas: u128,
}

/// Mathematical model of an [`UnsignedTransaction`].
pub struct SpecTransaction {
    pub chain: u64,
    pub nonce: u128,
    pub gas_price: u128,
    pub to: Option<Seq<u8>>,
    pub value: u128,
    pub data: Seq<u8>,
    pub gas: u128,
}

impl View for UnsignedTransaction {
    type V = SpecTransaction;

    open spec fn view(&self) -> SpecTransaction {
        SpecTransaction {
            chain: self.chain,
            nonce: self.nonce,
            gas_price: self.gas_price,
            to: match self.to {
                Some(address) => Some(address@),
                None => None,
            },
            value: self.value,
            data: self.data@,
            gas: self.gas,
        }
    }
}

/// The transaction that the policy of the sandbox fixes for a nonce, a
/// destination and a payload.
pub open spec fn sandbox_transaction(
    nonce: u128,
    to: Option<Seq<u8>>,
    data: Seq<u8>,
) -> SpecTransaction {
    SpecTransaction {
        chain: AURORA_LOCAL_CHAIN_ID,
        nonce,
        gas_price: GAS_PRICE,
        to,
        value: TRANSFER_VALUE,
        data,
        gas: GAS_ALLOWANCE,
    }
}

impl SpecTransaction {
    /// Whether the transaction has a destination of 20 bytes or none, and
    /// the chain, fee price, value and gas allowance of the sandbox.
    pub open spec fn follows_policy(self) -> bool {
        &&& self.chain == AURORA_LOCAL_CHAIN_ID
        &&& self.gas_price == GAS_PRICE
        &&& self.value == TRANSFER_VALUE
        &&& self.gas == GAS_ALLOWANCE
        &&& self.to matches Some(address) ==> address.len() == 20
    }

    /// Whether the transaction creates a contract.
    pub open spec fn is_creation(self) -> bool {
        self.to is None
    }
}

impl UnsignedTransaction {
    /// The transaction that creates a contract from `data`, the code of the
    /// contract followed by its encoded constructor arguments.
    pub fn deploy(nonce: u128, data: Vec<u8>) -> (tx: UnsignedTransaction)
        ensures
            tx@ == sandbox_transaction(nonce, None, data@),
            tx@.follows_policy(),
            tx@.is_creation(),
    {
        UnsignedTransaction {
            chain: AURORA_LOCAL_CHAIN_ID,
            nonce,
            gas_price: GAS_PRICE,
            to: None,
            value: TRANSFER_VALUE,
            data,
            gas: GAS_ALLOWANCE,
        }
    }

    /// The transaction that calls the contract at `destination` with `data`,
    /// a selector followed by encoded arguments.
    pub fn call(destination: [u8; 20], nonce: u128, data: Vec<u8>) -> (tx: UnsignedTransaction)
        ensures
            tx@ == sandbox_transaction(nonce, Some(destination@), data@),
            tx@.follows_policy(),
            !tx@.is_creation(),
    {
        UnsignedTransaction {
            chain: AURORA_LOCAL_CHAIN_ID,
            nonce,
            gas_price: GAS_PRICE,
            to: Some(destination),
            value: TRANSFER_VALUE,
            data,
            gas: GAS_ALLOWANCE,
        }
    }
}

} // verus!
