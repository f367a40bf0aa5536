//! The ways in which a signature, a transaction or a block can be turned down.

use vstd::prelude::*;

verus! {

/// Why a value was rejected. Every rejection is handed back to the caller;
/// nothing is retried.
#[derive(Clone, Copy, Debug, PartialEq, Eq, Structural)]
pub enum LedgerError {
    /// The public key and the signature carry different algorithm tags.
    AlgorithmMismatch,
    /// The public key bytes are no valid key of the declared algorithm.
    MalformedKey,
    /// The signature bytes are no signature of the declared algorithm.
    MalformedSignature,
    /// Key and signature are well formed, but the scheme rejects them.
    InvalidSignature,
    /// The transaction carries no signature.
    MissingSignature,
    /// The block does not name the current tip as its predecessor.
    PrevHashMismatch,
}

impl LedgerError {
    /// A short lowercase description, for logs and error chains.
    pub fn message(&self) -> (s: &'static str)
        ensures
            s@ == match *self {
                LedgerError::AlgorithmMismatch => "signature algorithm mismatch"@,
                LedgerError::MalformedKey => "malformed public key"@,
                LedgerError::MalformedSignature => "malformed signature"@,
                LedgerError::InvalidSignature => "invalid signature"@,
                LedgerError::MissingSignature => "missing signature"@,
                LedgerError::PrevHashMismatch => "prev hash mismatch"@,
            },
    {
        match self {
            LedgerError::AlgorithmMismatch => "signature algorithm mismatch",
            LedgerError::MalformedKey => "malformed public key",
            LedgerError::MalformedSignature => "malformed signature",
            LedgerError::InvalidSignature => "invalid signature",
            LedgerError::MissingSignature => "missing signature",
            LedgerError::PrevHashMismatch => "prev hash mismatch",
        }
    }
}

} // verus!
