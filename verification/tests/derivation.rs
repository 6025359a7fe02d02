use soulbound_token::AccountId;
use soulbound_token::AssetAction;
use soulbound_token::ErrorCode;
use soulbound_token::SignerAuthority;
use soulbound_token::VaultStore;
use soulbound_token::derive_mint_address;
use soulbound_token::derive_vault_authority;
use soulbound_token::initialize_tokens;
use soulbound_token::initialize_vault;
use soulbound_token::verify_vault_authority;

fn id(b: u8) -> AccountId {
    AccountId::from_bytes([b; 32])
}

#[test]
fn vault_authority_matches_the_host_derivation() {
    let creator = id(1);
    let program = id(9);
    let program_key = solana_pubkey::Pubkey::new_from_array(program.bytes);
    let (expected, expected_bump) = solana_pubkey::Pubkey::find_program_address(
        &[b"vault_data", &creator.bytes],
        &program_key,
    );

    let (authority, bump) = derive_vault_authority(&creator, &program).unwrap();
    assert_eq!(authority.bytes, expected.to_bytes());
    assert_eq!(bump, expected_bump);
}

#[test]
fn mint_address_matches_the_host_derivation() {
    let creator = id(1);
    let program = id(9);
    let program_key = solana_pubkey::Pubkey::new_from_array(program.bytes);
    let (expected, expected_bump) =
        solana_pubkey::Pubkey::find_program_address(&[b"mint", &creator.bytes], &program_key);

    let (mint, bump) = derive_mint_address(&creator, &program).unwrap();
    assert_eq!(mint.bytes, expected.to_bytes());
    assert_eq!(bump, expected_bump);
}

#[test]
fn derived_authority_reverifies_and_rejects_forgeries() {
    let creator = id(1);
    let program = id(9);
    let (authority, bump) = derive_vault_authority(&creator, &program).unwrap();

    assert!(verify_vault_authority(&creator, bump, &authority, &program));
    // A claim of the creator's own identity as the authority is refused.
    assert!(!verify_vault_authority(&creator, bump, &creator, &program));
    // The derivation is tied to the creator.
    let other = id(2);
    assert!(!verify_vault_authority(&other, bump, &authority, &program));
}

#[test]
fn initialize_vault_records_the_canonical_proof_byte() {
    let mut store = VaultStore::new();
    let creator = id(1);
    let program = id(9);
    assert!(initialize_vault(&mut store, &creator, &id(2), &id(3), &program).is_ok());

    let vault = store.vault_for(&creator).unwrap();
    let (authority, bump) = derive_vault_authority(&creator, &program).unwrap();
    assert_eq!(vault.bump, bump);
    // The stored proof byte re-verifies the derived authority.
    assert!(verify_vault_authority(&creator, vault.bump, &authority, &program));
    assert_eq!(vault.creator, creator);
    assert_eq!(vault.ram, id(2));
    assert_eq!(vault.sayam, id(3));
    assert!(!vault.ram_approved);
    assert!(!vault.sayam_approved);
}

#[test]
fn initialize_vault_twice_for_one_creator_collides() {
    let mut store = VaultStore::new();
    let creator = id(1);
    let program = id(9);
    assert!(initialize_vault(&mut store, &creator, &id(2), &id(3), &program).is_ok());

    // Same creator again, even with different approvers: the derived record
    // address collides with the existing record.
    assert_eq!(
        initialize_vault(&mut store, &creator, &id(4), &id(5), &program),
        Err(ErrorCode::AlreadyInitialized)
    );

    // A different creator gets its own record.
    assert!(initialize_vault(&mut store, &id(6), &id(2), &id(3), &program).is_ok());
}

#[test]
fn store_vault_persists_an_updated_record() {
    let mut store = VaultStore::new();
    let creator = id(1);
    let program = id(9);
    assert!(initialize_vault(&mut store, &creator, &id(2), &id(3), &program).is_ok());

    let mut vault = store.vault_for(&creator).unwrap();
    assert!(soulbound_token::approve_transfer(&mut vault, &id(2)).is_ok());
    assert!(store.store_vault(&vault));
    assert!(store.vault_for(&creator).unwrap().ram_approved);

    // A record whose creator was never initialized is not stored.
    vault.creator = id(8);
    assert!(!store.store_vault(&vault));
    assert!(store.vault_for(&id(8)).is_none());
}

#[test]
fn bootstrap_mint_issues_the_fixed_supply_under_the_derived_authority() {
    let mut store = VaultStore::new();
    let creator = id(1);
    let program = id(9);
    assert!(initialize_vault(&mut store, &creator, &id(2), &id(3), &program).is_ok());
    let vault = store.vault_for(&creator).unwrap();

    let (mint, _) = derive_mint_address(&creator, &program).unwrap();
    let vault_balance = id(30);
    let action = initialize_tokens(&vault, &mint, &vault_balance);
    assert_eq!(
        action,
        AssetAction::MintTo {
            mint,
            to: vault_balance,
            amount: 1_000_000,
            authority: SignerAuthority::Derived { creator, bump: vault.bump },
        }
    );
}
