//! Builds unsigned legacy transactions for deploying and calling EVM contracts
//! on a sandboxed Aurora network.

pub mod abi;
pub mod builder;
pub mod contract;
pub mod encoder;
pub mod error;
pub mod guarantees;
pub mod limits;
pub mod outside;
pub mod random;
pub mod transaction;
