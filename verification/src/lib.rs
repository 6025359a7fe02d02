//! Dual-control custody vault: a vault record names two approvers whose joint
//! sign-off gates privileged asset operations (withdrawal, peer transfer,
//! burn), carried out by an external asset-custody service under an authority
//! identity derived deterministically from the vault's creator.

pub mod authority;
pub mod dispatch;
pub mod errors;
pub mod identity;
pub mod registry;
pub mod vault;

pub use authority::derive_mint_address;
pub use authority::derive_vault_authority;
pub use authority::verify_vault_authority;
pub use dispatch::AssetAction;
pub use dispatch::BalanceAccount;
pub use dispatch::SignerAuthority;
pub use dispatch::burn_tokens;
pub use dispatch::initialize_tokens;
pub use dispatch::transfer_between_accounts;
pub use dispatch::transfer_from_vault;
pub use errors::ErrorCode;
pub use identity::AccountId;
pub use registry::VaultStore;
pub use registry::initialize_vault;
pub use vault::VaultData;
pub use vault::approve_transfer;
pub use vault::reset_approvals;
