//! The vault record and its approval state machine: two independent flags,
//! each settable only by its own approver, reset only by the creator.

use vstd::prelude::*;

use crate::errors::ErrorCode;
use crate::identity::AccountId;

verus! {

/// The persisted approval/authority state of one vault.
///
/// `creator` and the two approver identities `ram` and `sayam` are fixed at
/// creation; `bump` is the proof byte of the authority derivation from
/// `creator`, stored so the derivation can be re-verified cheaply.
#[derive(Clone, Copy, Debug, PartialEq, Eq)]
pub struct VaultData {
    pub creator: AccountId,
    pub bump: u8,
    pub ram: AccountId,
    pub sayam: AccountId,
    pub ram_approved: bool,
    pub sayam_approved: bool,
}

/// The authorization gate on the flag state alone: both approvers have
/// signed off.
pub open spec fn gate_open(v: VaultData) -> bool {
    v.ram_approved && v.sayam_approved
}

/// What approval by `signer` does to the record: the signer's own flag is
/// set (and nothing else changes), or the call is refused.
pub open spec fn approval_outcome(v: VaultData, signer: Seq<u8>) -> Result<VaultData, ErrorCode> {
    if signer == v.ram@ {
        Ok(VaultData { ram_approved: true, ..v })
    } else if signer == v.sayam@ {
        Ok(VaultData { sayam_approved: true, ..v })
    } else {
        Err(ErrorCode::UnauthorizedSigner)
    }
}

/// What a reset by `signer` does to the record: the creator may always
/// clear both flags; anyone else is refused.
pub open spec fn reset_outcome(v: VaultData, signer: Seq<u8>) -> Result<VaultData, ErrorCode> {
    if signer == v.creator@ {
        Ok(VaultData { ram_approved: false, sayam_approved: false, ..v })
    } else {
        Err(ErrorCode::UnauthorizedSigner)
    }
}

/// Records approval by `signer`: sets exactly the flag belonging to the
/// approver who signed, fails with `UnauthorizedSigner` for anyone else.
/// Re-approving an already-set flag is a no-op success.
pub fn approve_transfer(vault: &mut VaultData, signer: &AccountId) -> (r: Result<(), ErrorCode>)
    ensures
        match approval_outcome(*old(vault), signer@) {
            Ok(v2) => r is Ok && *final(vault) == v2,
            Err(e) => r == Err::<(), ErrorCode>(e) && *final(vault) == *old(vault),
        },
{
    if signer.same_id(&vault.ram) {
        vault.ram_approved = true;
        Ok(())
    } else if signer.same_id(&vault.sayam) {
        vault.sayam_approved = true;
        Ok(())
    } else {
        Err(ErrorCode::UnauthorizedSigner)
    }
}

/// Clears both approval flags, from any prior state, provided the caller is
/// the vault's creator; fails with `UnauthorizedSigner` for anyone else.
pub fn reset_approvals(vault: &mut VaultData, signer: &AccountId) -> (r: Result<(), ErrorCode>)
    ensures
        match reset_outcome(*old(vault), signer@) {
            Ok(v2) => r is Ok && *final(vault) == v2,
            Err(e) => r == Err::<(), ErrorCode>(e) && *final(vault) == *old(vault),
        },
{
    if signer.same_id(&vault.creator) {
        vault.ram_approved = false;
        vault.sayam_approved = false;
        Ok(())
    } else {
        Err(ErrorCode::UnauthorizedSigner)
    }
}

/// Approval is idempotent: a second approval by the same signer yields
/// exactly the record the first one produced.
pub proof fn lemma_approve_idempotent(v: VaultData, signer: Seq<u8>)
    requires
        approval_outcome(v, signer) is Ok,
    ensures
        approval_outcome(approval_outcome(v, signer)->Ok_0, signer) == approval_outcome(
            v,
            signer,
        ),
{
}

/// Approval by one approver never touches the other approver's flag, nor
/// any identity stored in the record.
pub proof fn lemma_approve_independent(v: VaultData, signer: Seq<u8>)
    requires
        approval_outcome(v, signer) is Ok,
    ensures
        signer == v.ram@ ==> approval_outcome(v, signer)->Ok_0.sayam_approved
            == v.sayam_approved,
        signer != v.ram@ ==> approval_outcome(v, signer)->Ok_0.ram_approved == v.ram_approved,
        approval_outcome(v, signer)->Ok_0.creator == v.creator,
        approval_outcome(v, signer)->Ok_0.ram == v.ram,
        approval_outcome(v, signer)->Ok_0.sayam == v.sayam,
        approval_outcome(v, signer)->Ok_0.bump == v.bump,
{
}

/// A reset by the creator always succeeds and always lands in the fully
/// disarmed state, whatever the flags were before.
pub proof fn lemma_reset_disarms(v: VaultData, signer: Seq<u8>)
    requires
        signer == v.creator@,
    ensures
        reset_outcome(v, signer) is Ok,
        !reset_outcome(v, signer)->Ok_0.ram_approved,
        !reset_outcome(v, signer)->Ok_0.sayam_approved,
        !gate_open(reset_outcome(v, signer)->Ok_0),
{
}

} // verus!
