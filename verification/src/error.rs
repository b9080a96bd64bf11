//! The errors of the library, and its picture of the errors that come back
//! from the node.

use vstd::prelude::*;

verus! {

/// Why a derivation did not yield a signer.
#[derive(Clone, Copy, Debug, PartialEq, Eq, Structural)]
pub enum DerivationFailure {
    /// The upper bound of the index range lies below its lower bound.
    RangeUnderflow,
    /// The phrase is not a valid mnemonic.
    InvalidMnemonic,
    /// No key could be derived at this position of the derivation tree.
    InvalidIndex,
}

/// An error of the library.
#[derive(Clone, Debug, PartialEq, Eq)]
pub enum Error {
    /// A derivation failed; fatal to the whole batch. `index` is the position
    /// at which it failed, or the lower bound of an underflowed range.
    Derivation { index: u32, failure: DerivationFailure },
    /// The contract's interface has no function of this name.
    FunctionNotFound(String),
    /// The request was rejected before inclusion: the call could not be
    /// encoded, the transaction did not reach the node, or the node refused
    /// it.
    Submission(String),
    /// The transaction was submitted but its confirmation was not observed.
    Confirmation(String),
    /// The sum of the amounts exceeds 256 bits.
    AmountOverflow,
    /// A read-only call got no reply from the endpoint.
    Unreachable(String),
    /// The reply to a read-only call could not be decoded.
    Decoding(String),
    /// A batch was closed before every signer had its outcome.
    Incomplete { recorded: usize, expected: usize },
}

/// The kind of an error that the node, or the code that talks to it, reported.
#[derive(Clone, Copy, Debug, PartialEq, Eq, Structural)]
pub enum FaultKind {
    /// The interface has no function of the requested name.
    UnknownFunction,
    /// Values and interface do not fit: arguments could not be encoded, or a
    /// reply could not be decoded.
    Abi,
    /// The request did not get through, or the node refused it.
    Transport,
    /// Waiting for a pending transaction ended without its confirmation.
    Pending,
    /// Anything else.
    Other,
}

/// An error reported from outside the library: its kind and its description.
#[derive(Clone, Debug, PartialEq, Eq)]
pub struct Fault {
    pub kind: FaultKind,
    pub text: String,
}

} // verus!
