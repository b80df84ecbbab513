//! The ways an operation can fail.
use vstd::prelude::*;

verus! {

/// Why an operation did not complete.
#[derive(Clone, Debug, PartialEq, Eq)]
pub enum BridgeError {
    /// A read-only call answered with fewer bytes than the value it should hold.
    MalformedResponse,
    /// The transaction or its confirmation event did not arrive in time.
    Timeout,
    /// A computed amount does not fit in 256 bits.
    Overflow,
    /// The contract call could not be encoded.
    EncodingFailure,
    /// The node or the signer failed; its message is passed on unchanged.
    TransportFailure(String),
}

} // verus!
