use vstd::prelude::*;
use crate::algorithm::PublicKeyAlgorithm;
use crate::types::EskType;

verus! {

/// Failures of the key operations.
#[derive(Clone, Debug, PartialEq, Eq)]
pub enum Error {
    /// The key's scheme does not support the requested operation.
    AlgorithmMismatch(PublicKeyAlgorithm),
    /// The requested session-key encoding does not fit the key's scheme.
    EskTypeMismatch(PublicKeyAlgorithm, EskType),
    /// The signature does not authenticate the message under this key.
    VerificationFailed,
    /// Key material or a signature is structurally invalid.
    Malformed,
    /// The output sink failed; the message is the sink's own.
    Write(String),
}

} // verus!
