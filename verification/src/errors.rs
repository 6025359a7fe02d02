//! Error kinds for vault operations. Every failure is terminal for the
//! current operation and leaves all state untouched.

use vstd::prelude::*;

verus! {

/// Why a vault operation was refused.
#[derive(Clone, Copy, Debug, PartialEq, Eq)]
pub enum ErrorCode {
    /// A gated operation was attempted before both approvers signed off.
    ApprovalRequired,
    /// The caller is neither designated approver, or a non-creator attempted
    /// a reset.
    UnauthorizedSigner,
    /// The caller is not the recorded owner of the balance account it claims
    /// to act on.
    OwnershipMismatch,
    /// A vault record already exists for this creator: the derived storage
    /// address collides with the existing record.
    AlreadyInitialized,
    /// The one-byte proof space was exhausted while searching for a vault
    /// authority derivation.
    DerivationExhausted,
}

} // verus!
