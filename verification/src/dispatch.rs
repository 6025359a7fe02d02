//! Asset operation dispatch: each privileged operation is validated by the
//! authorization gate and then described as a call into the external
//! asset-custody service, signed either by the derived vault authority (as a
//! capability carrying the derivation inputs) or by the human caller.

use vstd::prelude::*;

use crate::errors::ErrorCode;
use crate::identity::AccountId;
use crate::vault::VaultData;
use crate::vault::gate_open;

verus! {

/// The fixed supply minted into the vault's balance by the one-time
/// bootstrap.
pub const INITIAL_SUPPLY: u64 = 1_000_000;

/// A balance account: its address, and the owner the asset-custody
/// service has on record for it.
#[derive(Clone, Copy, Debug, PartialEq, Eq)]
pub struct BalanceAccount {
    pub address: AccountId,
    pub owner: AccountId,
}

/// Who signs an asset-service call.
#[derive(Clone, Copy, Debug, PartialEq, Eq)]
pub enum SignerAuthority {
    /// The derived vault authority: a capability carrying the derivation
    /// inputs, from which the dispatcher reproduces the signing seeds.
    Derived { creator: AccountId, bump: u8 },
    /// A human caller signing for itself.
    Caller { id: AccountId },
}

/// A call into the external asset-custody service, ready to issue.
#[derive(Clone, Copy, Debug, PartialEq, Eq)]
pub enum AssetAction {
    MintTo { mint: AccountId, to: AccountId, amount: u64, authority: SignerAuthority },
    Transfer { from: AccountId, to: AccountId, amount: u64, authority: SignerAuthority },
    Burn { mint: AccountId, from: AccountId, amount: u64, authority: SignerAuthority },
}

/// The capability under which the vault's own record signs: its derivation
/// inputs.
pub open spec fn vault_signer(v: VaultData) -> SignerAuthority {
    SignerAuthority::Derived { creator: v.creator, bump: v.bump }
}

/// The bootstrap mint: the fixed initial supply, minted into the vault's
/// balance under the derived authority. Not gated.
pub open spec fn bootstrap_mint_outcome(
    v: VaultData,
    new_mint: AccountId,
    new_vault: AccountId,
) -> AssetAction {
    AssetAction::MintTo {
        mint: new_mint,
        to: new_vault,
        amount: INITIAL_SUPPLY,
        authority: vault_signer(v),
    }
}

/// A vault withdrawal: gated on both approvals, signed by the derived
/// vault authority. No ownership check; the vault is the source.
pub open spec fn withdrawal_outcome(
    v: VaultData,
    vault_balance: AccountId,
    recipient: AccountId,
    amount: u64,
) -> Result<AssetAction, ErrorCode> {
    if !gate_open(v) {
        Err(ErrorCode::ApprovalRequired)
    } else {
        Ok(
            AssetAction::Transfer {
                from: vault_balance,
                to: recipient,
                amount: amount,
                authority: vault_signer(v),
            },
        )
    }
}

/// A peer transfer: allowed when the caller owns the source balance and
/// both approvals are set; the caller itself signs.
pub open spec fn peer_transfer_outcome(
    v: VaultData,
    owner: AccountId,
    from_account: BalanceAccount,
    to_account: AccountId,
    amount: u64,
) -> Result<AssetAction, ErrorCode> {
    if owner@ != from_account.owner@ {
        Err(ErrorCode::OwnershipMismatch)
    } else if !gate_open(v) {
        Err(ErrorCode::ApprovalRequired)
    } else {
        Ok(
            AssetAction::Transfer {
                from: from_account.address,
                to: to_account,
                amount: amount,
                authority: SignerAuthority::Caller { id: owner },
            },
        )
    }
}

/// A burn: allowed when the caller owns the balance being burned from and
/// both approvals are set; the caller itself signs.
pub open spec fn burn_outcome(
    v: VaultData,
    owner: AccountId,
    mint: AccountId,
    token_account: BalanceAccount,
    amount: u64,
) -> Result<AssetAction, ErrorCode> {
    if owner@ != token_account.owner@ {
        Err(ErrorCode::OwnershipMismatch)
    } else if !gate_open(v) {
        Err(ErrorCode::ApprovalRequired)
    } else {
        Ok(
            AssetAction::Burn {
                mint: mint,
                from: token_account.address,
                amount: amount,
                authority: SignerAuthority::Caller { id: owner },
            },
        )
    }
}

/// The one-time bootstrap: describes minting the fixed initial supply into
/// the vault's balance, signed by the derived vault authority. Not gated by
/// the approvals.
pub fn initialize_tokens(vault: &VaultData, new_mint: &AccountId, new_vault: &AccountId) -> (r:
    AssetAction)
    ensures
        r == bootstrap_mint_outcome(*vault, *new_mint, *new_vault),
{
    AssetAction::MintTo {
        mint: *new_mint,
        to: *new_vault,
        amount: INITIAL_SUPPLY,
        authority: SignerAuthority::Derived { creator: vault.creator, bump: vault.bump },
    }
}

/// Withdraws `amount` from the vault's balance to `recipient`, provided
/// both approvers have signed off; the derived vault authority signs.
pub fn transfer_from_vault(
    vault: &VaultData,
    vault_balance: &AccountId,
    recipient: &AccountId,
    amount: u64,
) -> (r: Result<AssetAction, ErrorCode>)
    ensures
        r == withdrawal_outcome(*vault, *vault_balance, *recipient, amount),
        r is Ok <==> gate_open(*vault),
{
    if !(vault.ram_approved && vault.sayam_approved) {
        return Err(ErrorCode::ApprovalRequired);
    }
    Ok(
        AssetAction::Transfer {
            from: *vault_balance,
            to: *recipient,
            amount,
            authority: SignerAuthority::Derived { creator: vault.creator, bump: vault.bump },
        },
    )
}

/// Transfers `amount` between two arbitrary balances, provided the caller
/// owns the source balance and both approvers have signed off; the caller
/// signs.
pub fn transfer_between_accounts(
    vault: &VaultData,
    owner: &AccountId,
    from_account: &BalanceAccount,
    to_account: &AccountId,
    amount: u64,
) -> (r: Result<AssetAction, ErrorCode>)
    ensures
        r == peer_transfer_outcome(*vault, *owner, *from_account, *to_account, amount),
        r is Ok <==> owner@ == from_account.owner@ && gate_open(*vault),
{
    if !owner.same_id(&from_account.owner) {
        return Err(ErrorCode::OwnershipMismatch);
    }
    if !(vault.ram_approved && vault.sayam_approved) {
        return Err(ErrorCode::ApprovalRequired);
    }
    Ok(
        AssetAction::Transfer {
            from: from_account.address,
            to: *to_account,
            amount,
            authority: SignerAuthority::Caller { id: *owner },
        },
    )
}

/// Burns `amount` from a balance, provided the caller owns it and both
/// approvers have signed off; the caller signs.
pub fn burn_tokens(
    vault: &VaultData,
    owner: &AccountId,
    mint: &AccountId,
    token_account: &BalanceAccount,
    amount: u64,
) -> (r: Result<AssetAction, ErrorCode>)
    ensures
        r == burn_outcome(*vault, *owner, *mint, *token_account, amount),
        r is Ok <==> owner@ == token_account.owner@ && gate_open(*vault),
{
    if !owner.same_id(&token_account.owner) {
        return Err(ErrorCode::OwnershipMismatch);
    }
    if !(vault.ram_approved && vault.sayam_approved) {
        return Err(ErrorCode::ApprovalRequired);
    }
    Ok(
        AssetAction::Burn {
            mint: *mint,
            from: token_account.address,
            amount,
            authority: SignerAuthority::Caller { id: *owner },
        },
    )
}

/// While either approval is missing, every gated operation is refused with
/// `ApprovalRequired` (for callers that pass the ownership check where one
/// applies), and no action is issued.
pub proof fn lemma_gate_requires_both(
    v: VaultData,
    vault_balance: AccountId,
    recipient: AccountId,
    owner: AccountId,
    from_account: BalanceAccount,
    to_account: AccountId,
    mint: AccountId,
    amount: u64,
)
    requires
        !gate_open(v),
    ensures
        withdrawal_outcome(v, vault_balance, recipient, amount) == Err::<AssetAction, ErrorCode>(
            ErrorCode::ApprovalRequired,
        ),
        owner@ == from_account.owner@ ==> peer_transfer_outcome(
            v,
            owner,
            from_account,
            to_account,
            amount,
        ) == Err::<AssetAction, ErrorCode>(ErrorCode::ApprovalRequired),
        owner@ == from_account.owner@ ==> burn_outcome(v, owner, mint, from_account, amount)
            == Err::<AssetAction, ErrorCode>(ErrorCode::ApprovalRequired),
{
}

/// The ownership check is independent of the approvals: a caller that is
/// not the recorded owner of the source balance is refused even when both
/// approvals are set.
pub proof fn lemma_ownership_required(
    v: VaultData,
    owner: AccountId,
    from_account: BalanceAccount,
    to_account: AccountId,
    mint: AccountId,
    amount: u64,
)
    requires
        owner@ != from_account.owner@,
    ensures
        peer_transfer_outcome(v, owner, from_account, to_account, amount) == Err::<
            AssetAction,
            ErrorCode,
        >(ErrorCode::OwnershipMismatch),
        burn_outcome(v, owner, mint, from_account, amount) == Err::<AssetAction, ErrorCode>(
            ErrorCode::OwnershipMismatch,
        ),
{
}

/// A passed gate is not consumed: gated operations take the record
/// immutably, so the flags still read `{set, set}` afterwards, and in that
/// same armed state any further gated operation succeeds as well, until an
/// explicit reset.
pub proof fn lemma_gate_not_consumed(
    v: VaultData,
    first_balance: AccountId,
    first_recipient: AccountId,
    first_amount: u64,
    second_balance: AccountId,
    second_recipient: AccountId,
    second_amount: u64,
)
    requires
        gate_open(v),
    ensures
        withdrawal_outcome(v, first_balance, first_recipient, first_amount) is Ok,
        gate_open(v),
        withdrawal_outcome(v, second_balance, second_recipient, second_amount) is Ok,
{
}

} // verus!
