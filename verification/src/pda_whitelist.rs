//! The per-principal whitelist: one record for each whitelisted principal,
//! kept at the address derived from the vault's configuration account and
//! the principal. Because the address follows from that pair, a second
//! record for the same pair has nowhere to live.

use vstd::prelude::*;
use crate::address::Address;
use crate::authorization::{is_within_limit, within_limit, WhitelistStore};
use crate::derivation::{derive_whitelist_entry, derived_identity, replayed_identity, Role};
use crate::keyed_list::{
    has_key, item_of, lemma_item_of_push, lemma_unique_push, lemma_without_key, position,
    strip_key, unique_keys, without_key, Keyed,
};

verus! {

/// The whitelist record of one principal in one vault.
#[derive(Clone, Copy, Debug, PartialEq, Eq)]
pub struct WhitelistEntryPda {
    pub user: Address,
    /// Ceiling of a single amount; 0 = unlimited.
    pub max_amount: u64,
    /// The configuration account of the vault that the record belongs to.
    pub vault_config: Address,
    /// The bump of the record's own address.
    pub bump: u8,
}

impl WhitelistEntryPda {
    /// Bytes that a stored record takes: two addresses, the ceiling and
    /// the bump.
    pub const INIT_SPACE: usize = 73;

    /// Whether `amount` is within this record's ceiling.
    pub fn is_within_limit(&self, amount: u64) -> (ok: bool)
        ensures
            ok == within_limit(self.max_amount, amount),
    {
        is_within_limit(self.max_amount, amount)
    }
}

/// A record together with the address it lives at.
#[derive(Clone, Copy, Debug, PartialEq, Eq)]
pub struct EntryAccount {
    pub address: Address,
    pub entry: WhitelistEntryPda,
}

impl Keyed for EntryAccount {
    open spec fn key(&self) -> Address {
        self.address
    }

    fn key_address(&self) -> (k: Address) {
        self.address
    }
}

/// Why a record could not be created or destroyed.
#[derive(Clone, Copy, Debug, PartialEq, Eq, Structural)]
pub enum EntryError {
    /// A record already lives at the derived address.
    AlreadyExists,
    /// No record lives at the derived address.
    NotFound,
    /// The record at the derived address is for another principal.
    PrincipalMismatch,
    /// No usable address can be derived for the record.
    IdentityUnavailable,
}

/// The records of one vault.
#[derive(Clone, Debug, PartialEq, Eq)]
pub struct PdaWhitelist {
    /// The program under which the record addresses are derived.
    pub program_id: Address,
    /// The configuration account of the vault.
    pub vault_config: Address,
    pub accounts: Vec<EntryAccount>,
}

/// The address and bump of the record of `principal`.
pub open spec fn entry_identity(program_id: Address, vault_config: Address, principal: Address) -> Option<
    (Address, u8),
> {
    derived_identity(Role::WhitelistEntry, seq![vault_config, principal], program_id)
}

/// The record of `principal` among `accounts`: the record that lives at the
/// principal's derived address, provided it names the principal.
pub open spec fn record_of(
    accounts: Seq<EntryAccount>,
    program_id: Address,
    vault_config: Address,
    principal: Address,
) -> Option<WhitelistEntryPda> {
    match entry_identity(program_id, vault_config, principal) {
        Some((address, _)) => match item_of(accounts, address) {
            Some(account) => if account.entry.user == principal {
                Some(account.entry)
            } else {
                None
            },
            None => None,
        },
        None => None,
    }
}

/// What creating the record of `principal` with ceiling `max_amount` gives:
/// the accounts with the new record, or the reason for which none is made.
pub open spec fn create_outcome(
    accounts: Seq<EntryAccount>,
    program_id: Address,
    vault_config: Address,
    principal: Address,
    max_amount: u64,
) -> Result<Seq<EntryAccount>, EntryError> {
    match entry_identity(program_id, vault_config, principal) {
        None => Err(EntryError::IdentityUnavailable),
        Some((address, bump)) => if has_key(accounts, address) {
            Err(EntryError::AlreadyExists)
        } else {
            Ok(
                accounts.push(
                    EntryAccount {
                        address,
                        entry: WhitelistEntryPda { user: principal, max_amount, vault_config, bump },
                    },
                ),
            )
        },
    }
}

/// What destroying the record of `principal` gives: the accounts without
/// it, or the reason for which none is destroyed.
pub open spec fn destroy_outcome(
    accounts: Seq<EntryAccount>,
    program_id: Address,
    vault_config: Address,
    principal: Address,
) -> Result<Seq<EntryAccount>, EntryError> {
    match entry_identity(program_id, vault_config, principal) {
        None => Err(EntryError::NotFound),
        Some((address, _)) => match item_of(accounts, address) {
            None => Err(EntryError::NotFound),
            Some(account) => if account.entry.user == principal {
                Ok(without_key(accounts, address))
            } else {
                Err(EntryError::PrincipalMismatch)
            },
        },
    }
}

/// Whether a record lives where its vault and principal place it, with the
/// bump of that address.
pub open spec fn well_placed(account: EntryAccount, program_id: Address, vault_config: Address) -> bool {
    &&& account.entry.vault_config == vault_config
    &&& entry_identity(program_id, vault_config, account.entry.user) == Some(
        (account.address, account.entry.bump),
    )
}

/// Whether no two records share an address and each is well placed.
pub open spec fn well_formed(accounts: Seq<EntryAccount>, program_id: Address, vault_config: Address) -> bool {
    &&& unique_keys(accounts)
    &&& forall|i: int|
        0 <= i < accounts.len() ==> well_placed(#[trigger] accounts[i], program_id, vault_config)
}

impl PdaWhitelist {
    /// No two records share an address, and each lives where its vault and
    /// principal place it.
    pub open spec fn wf(&self) -> bool {
        well_formed(self.accounts@, self.program_id, self.vault_config)
    }

    /// The empty whitelist of the vault configured at `vault_config`.
    pub fn new(program_id: Address, vault_config: Address) -> (w: PdaWhitelist)
        ensures
            w.program_id == program_id,
            w.vault_config == vault_config,
            w.accounts@ == Seq::<EntryAccount>::empty(),
            w.wf(),
            forall|principal: Address| #[trigger] w.ceiling_of(principal) is None,
    {
        PdaWhitelist { program_id, vault_config, accounts: Vec::new() }
    }

    /// The record of `principal`, or `None` where the principal has none.
    pub fn lookup(&self, principal: &Address) -> (found: Option<WhitelistEntryPda>)
        ensures
            found == record_of(self.accounts@, self.program_id, self.vault_config, *principal),
    {
        match derive_whitelist_entry(&self.vault_config, principal, &self.program_id) {
            None => None,
            Some((address, _)) => match position(&self.accounts, &address) {
                None => None,
                Some(i) => {
                    let entry = self.accounts[i].entry;
                    if entry.user.equals(principal) {
                        Some(entry)
                    } else {
                        None
                    }
                },
            },
        }
    }

    /// Whether `principal` is whitelisted: a record lives at the
    /// principal's derived address and names the principal.
    pub fn is_authorized(&self, principal: &Address) -> (listed: bool)
        ensures
            listed == record_of(
                self.accounts@,
                self.program_id,
                self.vault_config,
                *principal,
            ) is Some,
    {
        self.lookup(principal).is_some()
    }

    /// Creates the record of `principal` with ceiling `max_amount`.
    ///
    /// Fails with `IdentityUnavailable` where no address can be derived for
    /// the record, and with `AlreadyExists` where a record lives at that
    /// address; a failure changes nothing. The new record comes last, and
    /// replaying the bump it stores gives the address it lives at.
    pub fn create(&mut self, principal: Address, max_amount: u64) -> (r: Result<(), EntryError>)
        ensures
            final(self).program_id == old(self).program_id,
            final(self).vault_config == old(self).vault_config,
            match create_outcome(
                old(self).accounts@,
                old(self).program_id,
                old(self).vault_config,
                principal,
                max_amount,
            ) {
                Ok(accounts) => r is Ok && final(self).accounts@ == accounts,
                Err(e) => r == Err::<(), EntryError>(e) && final(self).accounts@ == old(
                    self,
                ).accounts@,
            },
            old(self).wf() ==> final(self).wf(),
            r is Ok ==> final(self).ceiling_of(principal) == Some(max_amount),
            r is Ok ==> replayed_identity(
                Role::WhitelistEntry,
                seq![old(self).vault_config, principal],
                final(self).accounts@.last().entry.bump,
                old(self).program_id,
            ) == Some(final(self).accounts@.last().address),
            forall|other: Address|
                other != principal ==> #[trigger] final(self).ceiling_of(other) == old(
                    self,
                ).ceiling_of(other),
    {
        proof {
            lemma_create_effect(
                self.accounts@,
                self.program_id,
                self.vault_config,
                principal,
                max_amount,
            );
        }
        match derive_whitelist_entry(&self.vault_config, &principal, &self.program_id) {
            None => Err(EntryError::IdentityUnavailable),
            Some((address, bump)) => {
                if position(&self.accounts, &address).is_some() {
                    return Err(EntryError::AlreadyExists);
                }
                let account = EntryAccount {
                    address,
                    entry: WhitelistEntryPda {
                        user: principal,
                        max_amount,
                        vault_config: self.vault_config,
                        bump,
                    },
                };
                proof {
                    if old(self).wf() {
                        lemma_unique_push(self.accounts@, account);
                    }
                }
                self.accounts.push(account);
                Ok(())
            },
        }
    }

    /// Destroys the record of `principal`.
    ///
    /// Fails with `NotFound` where no record lives at the principal's
    /// derived address, and with `PrincipalMismatch` where the record there
    /// names another principal; a failure changes nothing.
    pub fn destroy(&mut self, principal: &Address) -> (r: Result<(), EntryError>)
        ensures
            final(self).program_id == old(self).program_id,
            final(self).vault_config == old(self).vault_config,
            match destroy_outcome(
                old(self).accounts@,
                old(self).program_id,
                old(self).vault_config,
                *principal,
            ) {
                Ok(accounts) => r is Ok && final(self).accounts@ == accounts,
                Err(e) => r == Err::<(), EntryError>(e) && final(self).accounts@ == old(
                    self,
                ).accounts@,
            },
            old(self).wf() ==> final(self).wf(),
            r is Ok ==> final(self).ceiling_of(*principal) is None,
            forall|other: Address|
                other != *principal ==> #[trigger] final(self).ceiling_of(other) == old(
                    self,
                ).ceiling_of(other),
    {
        proof {
            lemma_destroy_effect(self.accounts@, self.program_id, self.vault_config, *principal);
        }
        match derive_whitelist_entry(&self.vault_config, principal, &self.program_id) {
            None => Err(EntryError::NotFound),
            Some((address, _)) => match position(&self.accounts, &address) {
                None => Err(EntryError::NotFound),
                Some(i) => {
                    if !self.accounts[i].entry.user.equals(principal) {
                        return Err(EntryError::PrincipalMismatch);
                    }
                    proof {
                        lemma_without_key(self.accounts@, address);
                        if old(self).wf() {
                            lemma_well_formed_without(
                                self.accounts@,
                                self.program_id,
                                self.vault_config,
                                address,
                            );
                        }
                    }
                    self.accounts = strip_key(&self.accounts, &address);
                    Ok(())
                },
            },
        }
    }
}

/// What a creation does to the records: where it succeeds, the principal
/// has the record it was created with; every other principal's record is
/// as it was.
pub proof fn lemma_create_effect(
    accounts: Seq<EntryAccount>,
    program_id: Address,
    vault_config: Address,
    principal: Address,
    max_amount: u64,
)
    ensures
        match create_outcome(accounts, program_id, vault_config, principal, max_amount) {
            Ok(grown) => {
                &&& record_of(grown, program_id, vault_config, principal) matches Some(entry)
                &&& entry.user == principal
                &&& entry.max_amount == max_amount
                &&& entry.vault_config == vault_config
                &&& forall|other: Address|
                    other != principal ==> #[trigger] record_of(
                        grown,
                        program_id,
                        vault_config,
                        other,
                    ) == record_of(accounts, program_id, vault_config, other)
            },
            Err(_) => true,
        },
{
    match entry_identity(program_id, vault_config, principal) {
        Some((address, bump)) => {
            let account = EntryAccount {
                address,
                entry: WhitelistEntryPda { user: principal, max_amount, vault_config, bump },
            };
            lemma_item_of_push(accounts, account, address);
            assert forall|other: Address| other != principal implies #[trigger] record_of(
                accounts.push(account),
                program_id,
                vault_config,
                other,
            ) == record_of(accounts, program_id, vault_config, other) by {
                match entry_identity(program_id, vault_config, other) {
                    Some((other_address, _)) => {
                        lemma_item_of_push(accounts, account, other_address);
                    },
                    None => {},
                }
            }
        },
        None => {},
    }
}

/// What a destruction does to the records: where it succeeds, the
/// principal has no record; every other principal's record is as it was.
pub proof fn lemma_destroy_effect(
    accounts: Seq<EntryAccount>,
    program_id: Address,
    vault_config: Address,
    principal: Address,
)
    ensures
        match destroy_outcome(accounts, program_id, vault_config, principal) {
            Ok(shrunk) => {
                &&& record_of(shrunk, program_id, vault_config, principal) is None
                &&& forall|other: Address|
                    other != principal ==> #[trigger] record_of(
                        shrunk,
                        program_id,
                        vault_config,
                        other,
                    ) == record_of(accounts, program_id, vault_config, other)
            },
            Err(_) => true,
        },
{
    match entry_identity(program_id, vault_config, principal) {
        Some((address, _)) => {
            lemma_without_key(accounts, address);
        },
        None => {},
    }
}

/// Removing the record at an address keeps the other records well placed.
pub proof fn lemma_well_formed_without(
    accounts: Seq<EntryAccount>,
    program_id: Address,
    vault_config: Address,
    address: Address,
)
    requires
        well_formed(accounts, program_id, vault_config),
    ensures
        well_formed(without_key(accounts, address), program_id, vault_config),
{
    lemma_without_key(accounts, address);
    let kept = without_key(accounts, address);
    assert forall|i: int| 0 <= i < kept.len() implies well_placed(
        #[trigger] kept[i],
        program_id,
        vault_config,
    ) by {
        assert(accounts.contains(kept[i]));
        let j = choose|j: int| 0 <= j < accounts.len() && accounts[j] == kept[i];
        assert(well_placed(accounts[j], program_id, vault_config));
    }
}

/// The ceiling that `accounts` hold for `principal`: that of the
/// principal's record, or `None` where there is none.
pub open spec fn ceiling_among(
    accounts: Seq<EntryAccount>,
    program_id: Address,
    vault_config: Address,
    principal: Address,
) -> Option<u64> {
    match record_of(accounts, program_id, vault_config, principal) {
        Some(entry) => Some(entry.max_amount),
        None => None,
    }
}

impl WhitelistStore for PdaWhitelist {
    open spec fn ceiling_of(&self, principal: Address) -> Option<u64> {
        ceiling_among(self.accounts@, self.program_id, self.vault_config, principal)
    }

    fn find_ceiling(&self, principal: &Address) -> (ceiling: Option<u64>) {
        match self.lookup(principal) {
            Some(entry) => Some(entry.max_amount),
            None => None,
        }
    }
}

} // verus!
