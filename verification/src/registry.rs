//! The vault store: the host's record storage as this library sees it.
//! Exactly one vault record exists per creator; a second initialization for
//! the same creator collides with the record the first one created.

use vstd::prelude::*;

use crate::authority::authority_with_bump;
use crate::authority::derive_vault_authority;
use crate::authority::derived_authority;
use crate::authority::vault_tag_bytes;
use crate::errors::ErrorCode;
use crate::identity::AccountId;
use crate::vault::VaultData;

verus! {

/// Whether some record in `s` belongs to `creator`.
pub open spec fn has_vault(s: Seq<VaultData>, creator: Seq<u8>) -> bool {
    exists|i: int| 0 <= i < s.len() && s[i].creator@ == creator
}

/// No two records share a creator.
pub open spec fn distinct_creators(s: Seq<VaultData>) -> bool {
    forall|i: int, j: int| 0 <= i < j < s.len() ==> s[i].creator@ != s[j].creator@
}

/// What initializing a vault does to the stored records: a fresh record
/// with both flags unset is added, unless one already exists for this
/// creator or the authority derivation exhausts its proof space.
pub open spec fn initialize_outcome(
    s: Seq<VaultData>,
    signer: AccountId,
    ram: AccountId,
    sayam: AccountId,
    program: AccountId,
) -> Result<Seq<VaultData>, ErrorCode> {
    if has_vault(s, signer@) {
        Err(ErrorCode::AlreadyInitialized)
    } else {
        match derived_authority(vault_tag_bytes(), signer@, program@) {
            Some(p) => Ok(
                s.push(
                    VaultData {
                        creator: signer,
                        bump: p.1,
                        ram: ram,
                        sayam: sayam,
                        ram_approved: false,
                        sayam_approved: false,
                    },
                ),
            ),
            None => Err(ErrorCode::DerivationExhausted),
        }
    }
}

/// The stored vault records.
pub struct VaultStore {
    vaults: Vec<VaultData>,
}

impl View for VaultStore {
    type V = Seq<VaultData>;

    closed spec fn view(&self) -> Seq<VaultData> {
        self.vaults@
    }
}

impl VaultStore {
    /// One record per creator, always.
    pub open spec fn wf(&self) -> bool {
        distinct_creators(self@)
    }

    /// An empty store.
    pub fn new() -> (r: VaultStore)
        ensures
            r@ == Seq::<VaultData>::empty(),
            r.wf(),
    {
        let r = VaultStore { vaults: Vec::new() };
        proof {
            assert(r@ =~= Seq::<VaultData>::empty());
        }
        r
    }

    /// Whether a record for `creator` exists.
    pub fn contains_creator(&self, creator: &AccountId) -> (r: bool)
        ensures
            r == has_vault(self@, creator@),
    {
        let mut i: usize = 0;
        while i < self.vaults.len()
            invariant
                i <= self.vaults.len(),
                forall|j: int| 0 <= j < i ==> self@[j].creator@ != creator@,
            decreases self.vaults.len() - i,
        {
            if self.vaults[i].creator.same_id(creator) {
                return true;
            }
            i += 1;
        }
        false
    }

    /// The record for `creator`, if one exists.
    pub fn vault_for(&self, creator: &AccountId) -> (r: Option<VaultData>)
        ensures
            r is Some <==> has_vault(self@, creator@),
            match r {
                Some(v) => v.creator@ == creator@ && self@.contains(v),
                None => true,
            },
    {
        let mut i: usize = 0;
        while i < self.vaults.len()
            invariant
                i <= self.vaults.len(),
                forall|j: int| 0 <= j < i ==> self@[j].creator@ != creator@,
            decreases self.vaults.len() - i,
        {
            if self.vaults[i].creator.same_id(creator) {
                return Some(self.vaults[i]);
            }
            i += 1;
        }
        None
    }

    /// Writes an updated record back under its creator, replacing the one
    /// that is there. The approval operations work on a copy of the record;
    /// this is how their result is persisted.
    pub fn store_vault(&mut self, vault: &VaultData) -> (r: bool)
        requires
            old(self).wf(),
        ensures
            final(self).wf(),
            r == has_vault(old(self)@, vault.creator@),
            r ==> final(self)@.len() == old(self)@.len() && (exists|i: int|
                0 <= i < old(self)@.len() && old(self)@[i].creator@ == vault.creator@
                    && final(self)@ == old(self)@.update(i, *vault)),
            !r ==> final(self)@ == old(self)@,
    {
        let ghost s0 = self@;
        let mut i: usize = 0;
        while i < self.vaults.len()
            invariant
                i <= self.vaults.len(),
                self@ == s0,
                s0 == old(self)@,
                distinct_creators(s0),
                forall|j: int| 0 <= j < i ==> s0[j].creator@ != vault.creator@,
            decreases self.vaults.len() - i,
        {
            if self.vaults[i].creator.same_id(&vault.creator) {
                proof {
                    assert(s0[i as int].creator@ == vault.creator@);
                    assert(has_vault(s0, vault.creator@));
                }
                self.vaults.set(i, *vault);
                proof {
                    assert(self@ =~= s0.update(i as int, *vault));
                    assert forall|a: int, b: int|
                        0 <= a < b < self@.len() implies self@[a].creator@
                        != self@[b].creator@ by {
                        assert(s0[a].creator@ != s0[b].creator@);
                    }
                }
                return true;
            }
            i += 1;
        }
        false
    }
}

/// Creates the vault record for `signer`, naming the two approvers `ram`
/// and `sayam`, with both approval flags unset. Fails when a record for
/// `signer` already exists (the derived storage address collides) or when
/// the authority derivation exhausts its proof space.
pub fn initialize_vault(
    store: &mut VaultStore,
    signer: &AccountId,
    ram: &AccountId,
    sayam: &AccountId,
    program: &AccountId,
) -> (r: Result<(), ErrorCode>)
    requires
        old(store).wf(),
    ensures
        final(store).wf(),
        match initialize_outcome(old(store)@, *signer, *ram, *sayam, *program) {
            Ok(s2) => r is Ok && final(store)@ == s2,
            Err(e) => r == Err::<(), ErrorCode>(e) && final(store)@ == old(store)@,
        },
        // The stored proof byte re-verifies: the authority it was found for
        // is recomputable from the creator and that byte alone.
        r is Ok ==> (derived_authority(vault_tag_bytes(), signer@, program@) matches Some(p)
            && authority_with_bump(vault_tag_bytes(), signer@, p.1, program@) == Some(p.0)),
{
    if store.contains_creator(signer) {
        return Err(ErrorCode::AlreadyInitialized);
    }
    match derive_vault_authority(signer, program) {
        Some(pair) => {
            let ghost s0 = store@;
            let record = VaultData {
                creator: *signer,
                bump: pair.1,
                ram: *ram,
                sayam: *sayam,
                ram_approved: false,
                sayam_approved: false,
            };
            store.vaults.push(record);
            proof {
                assert(store@ =~= s0.push(record));
                assert forall|a: int, b: int|
                    0 <= a < b < store@.len() implies store@[a].creator@
                    != store@[b].creator@ by {
                    if b < s0.len() {
                        assert(s0[a].creator@ != s0[b].creator@);
                    } else {
                        assert(store@[b] == record);
                        assert(!has_vault(s0, signer@));
                        assert(s0[a].creator@ != signer@);
                    }
                }
            }
            Ok(())
        },
        None => Err(ErrorCode::DerivationExhausted),
    }
}

/// Initialization is exclusive: once it has succeeded for a creator, any
/// further initialization for the same creator fails with the collision
/// error, whatever approvers or program it names.
pub proof fn lemma_initialize_vault_once(
    s: Seq<VaultData>,
    signer: AccountId,
    ram1: AccountId,
    sayam1: AccountId,
    program1: AccountId,
    ram2: AccountId,
    sayam2: AccountId,
    program2: AccountId,
)
    requires
        initialize_outcome(s, signer, ram1, sayam1, program1) is Ok,
    ensures
        initialize_outcome(
            initialize_outcome(s, signer, ram1, sayam1, program1)->Ok_0,
            signer,
            ram2,
            sayam2,
            program2,
        ) == Err::<Seq<VaultData>, ErrorCode>(ErrorCode::AlreadyInitialized),
{
    let s2 = initialize_outcome(s, signer, ram1, sayam1, program1)->Ok_0;
    assert(s2[s.len() as int].creator@ == signer@);
    assert(has_vault(s2, signer@));
}

} // verus!
