//! Authority derivation: a creator identity is mapped deterministically to a
//! controller identity with no private key, together with a one-byte proof
//! (the "bump") under which the derivation can be re-verified cheaply.
//!
//! The derivation itself is the asset host's: `Pubkey::try_find_program_address`
//! searches the one-byte proof space, and `Pubkey::create_program_address`
//! recomputes the identity from given inputs and proof.

use vstd::prelude::*;

use crate::identity::AccountId;

verus! {

/// What `Pubkey::try_find_program_address` returns for a two-seed derivation
/// `[tag, key]` under `program`: the derived identity bytes and the proof
/// byte, or nothing when the proof space is exhausted. The result depends on
/// the inputs alone.
pub uninterp spec fn derived_authority(tag: Seq<u8>, key: Seq<u8>, program: Seq<u8>) -> Option<
    (Seq<u8>, u8),
>;

/// What `Pubkey::create_program_address` returns for the seeds
/// `[tag, key, [bump]]` under `program`: the recomputed identity bytes, or
/// nothing when these inputs derive no valid authority. The result depends
/// on the inputs alone.
pub uninterp spec fn authority_with_bump(
    tag: Seq<u8>,
    key: Seq<u8>,
    bump: u8,
    program: Seq<u8>,
) -> Option<Seq<u8>>;

/// The domain tag under which vault records and their authorities are
/// derived: the bytes of "vault_data".
pub open spec fn vault_tag_bytes() -> Seq<u8> {
    seq![118u8, 97u8, 117u8, 108u8, 116u8, 95u8, 100u8, 97u8, 116u8, 97u8]
}

/// The domain tag under which the vault's mint identity is derived: the
/// bytes of "mint".
pub open spec fn mint_tag_bytes() -> Seq<u8> {
    seq![109u8, 105u8, 110u8, 116u8]
}

/// Builds the vault-record domain tag.
pub fn vault_tag() -> (r: Vec<u8>)
    ensures
        r@ == vault_tag_bytes(),
{
    let mut v: Vec<u8> = Vec::new();
    v.push(118);
    v.push(97);
    v.push(117);
    v.push(108);
    v.push(116);
    v.push(95);
    v.push(100);
    v.push(97);
    v.push(116);
    v.push(97);
    proof {
        assert(v@ =~= vault_tag_bytes());
    }
    v
}

/// Builds the mint domain tag.
pub fn mint_tag() -> (r: Vec<u8>)
    ensures
        r@ == mint_tag_bytes(),
{
    let mut v: Vec<u8> = Vec::new();
    v.push(109);
    v.push(105);
    v.push(110);
    v.push(116);
    proof {
        assert(v@ =~= mint_tag_bytes());
    }
    v
}

/// Relies on `Pubkey::try_find_program_address` of anchor_lang (the
/// `solana_pubkey` crate): the search over the one-byte proof space is
/// deterministic in its inputs, and the proof it returns is the one under
/// which `Pubkey::create_program_address` recomputes the same identity.
#[verifier::external_body]
fn find_authority_raw(tag: &Vec<u8>, key: &AccountId, program: &AccountId) -> (r: Option<
    (AccountId, u8),
>)
    ensures
        match r {
            Some(p) => derived_authority(tag@, key@, program@) == Some((p.0@, p.1))
                && authority_with_bump(tag@, key@, p.1, program@) == Some(p.0@),
            None => derived_authority(tag@, key@, program@) is None,
        },
{
    let program_id = anchor_lang::solana_program::pubkey::Pubkey::new_from_array(program.bytes);
    let seeds: &[&[u8]] = &[tag.as_slice(), &key.bytes];
    match anchor_lang::solana_program::pubkey::Pubkey::try_find_program_address(
        seeds,
        &program_id,
    ) {
        Some((address, bump)) => Some((AccountId { bytes: address.to_bytes() }, bump)),
        None => None,
    }
}

/// Relies on `Pubkey::create_program_address` of anchor_lang (the
/// `solana_pubkey` crate): the recomputation is deterministic in its inputs
/// and fails exactly when they derive no valid authority.
#[verifier::external_body]
fn recreate_authority_raw(tag: &Vec<u8>, key: &AccountId, bump: u8, program: &AccountId) -> (r:
    Option<AccountId>)
    ensures
        match r {
            Some(a) => authority_with_bump(tag@, key@, bump, program@) == Some(a@),
            None => authority_with_bump(tag@, key@, bump, program@) is None,
        },
{
    let program_id = anchor_lang::solana_program::pubkey::Pubkey::new_from_array(program.bytes);
    let bump_bytes = [bump];
    let seeds: &[&[u8]] = &[tag.as_slice(), &key.bytes, &bump_bytes];
    match anchor_lang::solana_program::pubkey::Pubkey::create_program_address(
        seeds,
        &program_id,
    ) {
        Ok(address) => Some(AccountId { bytes: address.to_bytes() }),
        Err(_) => None,
    }
}

/// Derives the vault authority identity and its proof byte from `creator`,
/// or reports that the proof space is exhausted.
pub fn derive_vault_authority(creator: &AccountId, program: &AccountId) -> (r: Option<
    (AccountId, u8),
>)
    ensures
        match r {
            Some(p) => derived_authority(vault_tag_bytes(), creator@, program@) == Some(
                (p.0@, p.1),
            ) && authority_with_bump(vault_tag_bytes(), creator@, p.1, program@) == Some(p.0@),
            None => derived_authority(vault_tag_bytes(), creator@, program@) is None,
        },
{
    let tag = vault_tag();
    find_authority_raw(&tag, creator, program)
}

/// Derives the vault's mint identity and its proof byte from `creator`, or
/// reports that the proof space is exhausted.
pub fn derive_mint_address(creator: &AccountId, program: &AccountId) -> (r: Option<
    (AccountId, u8),
>)
    ensures
        match r {
            Some(p) => derived_authority(mint_tag_bytes(), creator@, program@) == Some(
                (p.0@, p.1),
            ) && authority_with_bump(mint_tag_bytes(), creator@, p.1, program@) == Some(p.0@),
            None => derived_authority(mint_tag_bytes(), creator@, program@) is None,
        },
{
    let tag = mint_tag();
    find_authority_raw(&tag, creator, program)
}

/// Re-verifies a claimed vault authority: recomputes the derivation from
/// `creator` and the stored proof byte and compares it with the claim.
pub fn verify_vault_authority(creator: &AccountId, bump: u8, claimed: &AccountId, program:
    &AccountId) -> (r: bool)
    ensures
        r == (authority_with_bump(vault_tag_bytes(), creator@, bump, program@) == Some(claimed@)),
{
    let tag = vault_tag();
    match recreate_authority_raw(&tag, creator, bump, program) {
        Some(address) => address.same_id(claimed),
        None => false,
    }
}

} // verus!
