//! Failure classes for escrow operations.

use vstd::prelude::*;

verus! {

/// Why an escrow operation was rejected. Every operation is all-or-nothing:
/// a rejected call leaves every account exactly as it was.
#[derive(Clone, Copy, Debug, PartialEq, Eq, Structural)]
pub enum EscrowError {
    /// An identity mismatch, a wrong account reference, a missing or already
    /// consumed escrow record, or an insufficient balance; recoverable by
    /// resubmission with corrected inputs.
    PreconditionViolation,
    /// A missing required co-signature, or a failed program-authority
    /// derivation proof; not retryable without the correct signer.
    AuthorizationFailure,
    /// The underlying token-ledger transfer, authority reassignment or close
    /// would fail (mint mismatch, unauthorized source, balance overflow).
    LedgerOperationFailure,
}

} // verus!
