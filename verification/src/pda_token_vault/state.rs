//! Persistent state of the per-principal vault.

use vstd::prelude::*;
use crate::address::Address;

pub use crate::pda_whitelist::WhitelistEntryPda as WhitelistEntry;

verus! {

/// Binds a vault to its denomination and authority, and keeps the bumps of
/// its derived accounts.
#[derive(Clone, Copy, Debug, PartialEq, Eq)]
pub struct VaultConfig {
    pub authority: Address,
    pub mint: Address,
    pub config_bump: u8,
    pub vault_bump: u8,
}

impl VaultConfig {
    /// Bytes that a stored configuration takes: two addresses and two
    /// bumps.
    pub const INIT_SPACE: usize = 66;
}

} // verus!
