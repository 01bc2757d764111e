//! The ways in which building a transaction fails.

use vstd::prelude::*;

verus! {

/// The requested function cannot be picked from the interface.
#[derive(Debug, Clone, Copy, PartialEq, Eq, Structural)]
pub enum LookupError {
    /// The interface has no function of the requested name.
    NotFound,
    /// The interface has `matches` functions of the requested name, more
    /// than one.
    Ambiguous { matches: usize },
}

/// The arguments cannot be encoded for the declared parameters.
#[derive(Debug, Clone, Copy, PartialEq, Eq, Structural)]
pub enum EncodingError {
    /// `actual` arguments were passed where `expected` are declared.
    ArgumentCount { expected: usize, actual: usize },
    /// The argument at `index` is the first that does not conform to the
    /// type declared at its position.
    ArgumentType { index: usize },
    /// The arguments conform, but their encoding may take 4 GiB or more.
    TooLarge,
}

/// Why no transaction was built. Nothing is built in part: a failure leaves
/// no transaction behind.
#[derive(Debug, Clone, Copy, PartialEq, Eq, Structural)]
pub enum BuildError {
    Lookup(LookupError),
    Encoding(EncodingError),
}

} // verus!
