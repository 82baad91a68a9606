//! Persistent state of the hook vault.

use vstd::prelude::*;
use crate::address::Address;
use crate::authorization::WhitelistStore;
pub use crate::pda_whitelist::WhitelistEntryPda;
use crate::keyed_list::{
    has_key, item_of, lemma_item_of_push, lemma_unique_push, lemma_without_key, position,
    strip_key, unique_keys, without_key, Keyed,
};
use crate::transfer_hook_vault::constants::MAX_WHITELIST_ENTRIES;
use crate::transfer_hook_vault::error::VaultError;

verus! {

/// Binds a vault to its denomination and authority, and keeps the bumps of
/// its derived accounts.
#[derive(Clone, Copy, Debug, PartialEq, Eq)]
pub struct VaultConfig {
    pub authority: Address,
    pub mint: Address,
    pub config_bump: u8,
    pub vault_bump: u8,
    pub whitelist_bump: u8,
    pub extra_metas_bump: u8,
}

impl VaultConfig {
    /// Bytes that a stored configuration takes: two addresses and four
    /// bumps.
    pub const INIT_SPACE: usize = 68;
}

/// One whitelisted principal with its ceiling (0 = unlimited).
#[derive(Clone, Copy, Debug, PartialEq, Eq)]
pub struct WhitelistEntry {
    pub user: Address,
    pub max_amount: u64,
}

/// The aggregate whitelist of a vault: an ordered list of entries.
#[derive(Clone, Debug, PartialEq, Eq)]
pub struct Whitelist {
    pub authority: Address,
    pub entries: Vec<WhitelistEntry>,
}

impl Keyed for WhitelistEntry {
    open spec fn key(&self) -> Address {
        self.user
    }

    fn key_address(&self) -> (k: Address) {
        self.user
    }
}

/// What adding `user` with ceiling `max_amount` to `entries` gives: the
/// grown list, or the reason for which nothing is added.
pub open spec fn add_outcome(entries: Seq<WhitelistEntry>, user: Address, max_amount: u64) -> Result<
    Seq<WhitelistEntry>,
    VaultError,
> {
    if entries.len() >= MAX_WHITELIST_ENTRIES {
        Err(VaultError::WhitelistFull)
    } else if has_key(entries, user) {
        Err(VaultError::AlreadyWhitelisted)
    } else {
        Ok(entries.push(WhitelistEntry { user, max_amount }))
    }
}

/// What removing `user` from `entries` gives: the list without the user's
/// entry, or the reason for which nothing is removed.
pub open spec fn remove_outcome(entries: Seq<WhitelistEntry>, user: Address) -> Result<
    Seq<WhitelistEntry>,
    VaultError,
> {
    if has_key(entries, user) {
        Ok(without_key(entries, user))
    } else {
        Err(VaultError::NotFound)
    }
}

impl Whitelist {
    /// The list holds no principal twice and is within capacity.
    pub open spec fn wf(&self) -> bool {
        &&& unique_keys(self.entries@)
        &&& self.entries@.len() <= MAX_WHITELIST_ENTRIES
    }

    /// An empty whitelist under `authority`.
    pub fn new(authority: Address) -> (w: Whitelist)
        ensures
            w.authority == authority,
            w.entries@ == Seq::<WhitelistEntry>::empty(),
            w.wf(),
            forall|principal: Address| #[trigger] w.ceiling_of(principal) is None,
    {
        Whitelist { authority, entries: Vec::new() }
    }

    /// Bytes needed to store a whitelist of up to `max_entries` entries.
    pub fn space(max_entries: usize) -> (bytes: usize)
        requires
            8 + 32 + 4 + max_entries * (32 + 8) <= usize::MAX,
        ensures
            bytes == 8 + 32 + 4 + max_entries * (32 + 8),
    {
        8 + 32 + 4 + max_entries * (32 + 8)
    }

    /// Whether `user` is on the whitelist.
    pub fn is_whitelisted(&self, user: &Address) -> (listed: bool)
        ensures
            listed == has_key(self.entries@, *user),
    {
        position(&self.entries, user).is_some()
    }

    /// The first entry of `user`, or `None` where the user is not listed.
    pub fn get_entry(&self, user: &Address) -> (found: Option<&WhitelistEntry>)
        ensures
            match found {
                Some(e) => Some(*e) == item_of(self.entries@, *user),
                None => item_of(self.entries@, *user) is None,
            },
    {
        match position(&self.entries, user) {
            Some(i) => Some(&self.entries[i]),
            None => None,
        }
    }

    /// Whether the list has room for one more entry.
    pub fn can_add_entry(&self) -> (room: bool)
        ensures
            room == (self.entries@.len() < MAX_WHITELIST_ENTRIES),
    {
        self.entries.len() < MAX_WHITELIST_ENTRIES
    }

    /// Appends an entry for `user` with ceiling `max_amount`.
    ///
    /// Fails with `WhitelistFull` where the list is at capacity, else with
    /// `AlreadyWhitelisted` where the user is listed; a failure changes
    /// nothing.
    pub fn add_entry(&mut self, user: Address, max_amount: u64) -> (r: Result<(), VaultError>)
        ensures
            final(self).authority == old(self).authority,
            match add_outcome(old(self).entries@, user, max_amount) {
                Ok(entries) => r is Ok && final(self).entries@ == entries,
                Err(e) => r == Err::<(), VaultError>(e) && final(self).entries@ == old(
                    self,
                ).entries@,
            },
            old(self).wf() ==> final(self).wf(),
            r is Ok ==> final(self).ceiling_of(user) == Some(max_amount),
            forall|other: Address|
                other != user ==> #[trigger] final(self).ceiling_of(other) == old(self).ceiling_of(
                    other,
                ),
    {
        if !self.can_add_entry() {
            return Err(VaultError::WhitelistFull);
        }
        if self.is_whitelisted(&user) {
            return Err(VaultError::AlreadyWhitelisted);
        }
        proof {
            let entry = WhitelistEntry { user, max_amount };
            if unique_keys(self.entries@) {
                lemma_unique_push(self.entries@, entry);
            }
            lemma_item_of_push(self.entries@, entry, user);
            assert forall|other: Address| other != user implies ceiling_among(
                self.entries@.push(entry),
                other,
            ) == ceiling_among(self.entries@, other) by {
                lemma_item_of_push(self.entries@, entry, other);
            }
        }
        self.entries.push(WhitelistEntry { user, max_amount });
        Ok(())
    }

    /// Removes the entry of `user`.
    ///
    /// Fails with `NotFound` where the user has no entry, and then changes
    /// nothing. Every other entry stays, in its order.
    pub fn remove_entry(&mut self, user: &Address) -> (r: Result<(), VaultError>)
        ensures
            final(self).authority == old(self).authority,
            match remove_outcome(old(self).entries@, *user) {
                Ok(entries) => r is Ok && final(self).entries@ == entries,
                Err(e) => r == Err::<(), VaultError>(e) && final(self).entries@ == old(
                    self,
                ).entries@,
            },
            old(self).wf() ==> final(self).wf(),
            final(self).ceiling_of(*user) is None,
            forall|other: Address|
                other != *user ==> #[trigger] final(self).ceiling_of(other) == old(
                    self,
                ).ceiling_of(other),
    {
        proof {
            lemma_without_key(self.entries@, *user);
        }
        if !self.is_whitelisted(user) {
            return Err(VaultError::NotFound);
        }
        self.entries = strip_key(&self.entries, user);
        Ok(())
    }
}

/// The ceiling that `entries` hold for `principal`: that of the
/// principal's first entry, or `None` where there is none.
pub open spec fn ceiling_among(entries: Seq<WhitelistEntry>, principal: Address) -> Option<u64> {
    match item_of(entries, principal) {
        Some(e) => Some(e.max_amount),
        None => None,
    }
}

impl WhitelistStore for Whitelist {
    open spec fn ceiling_of(&self, principal: Address) -> Option<u64> {
        ceiling_among(self.entries@, principal)
    }

    fn find_ceiling(&self, principal: &Address) -> (ceiling: Option<u64>) {
        match self.get_entry(principal) {
            Some(e) => Some(e.max_amount),
            None => None,
        }
    }
}

} // verus!
