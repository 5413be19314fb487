//! Error taxonomy of the signing core.

use vstd::prelude::*;

verus! {

/// Why a core operation failed.
///
/// - `Capability`: the operation needs a signing identity and the identity at
///   hand holds no private scalar (read-only mode). Reported to the caller,
///   never retried.
/// - `Serialization`: an action could not be canonically encoded (a field
///   exceeds the wire format's length limits). Fatal to that operation.
/// - `Signing`: the cryptographic signing step failed. Fatal to that
///   operation.
/// - `Transport`: a network or remote failure, with the remote message when
///   one is available.
/// - `Persistence`: a disk write failed while saving agent key material.
#[derive(Debug)]
pub enum CoreError {
    Capability,
    Serialization,
    Signing,
    Transport(String),
    Persistence(String),
}

impl CoreError {
    /// Whether this is the capability error (missing signing identity).
    pub fn is_capability(&self) -> (r: bool)
        ensures
            r == (self is Capability),
    {
        match self {
            CoreError::Capability => true,
            _ => false,
        }
    }
}

} // verus!
