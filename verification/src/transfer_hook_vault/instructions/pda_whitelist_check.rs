//! Reading a principal's record in the per-principal whitelist.

use vstd::prelude::*;
use crate::address::Address;
use crate::pda_whitelist::{record_of, PdaWhitelist, WhitelistEntryPda};
use crate::transfer_hook_vault::error::VaultError;
use crate::transfer_hook_vault::state::VaultConfig;

verus! {

/// The accounts of a whitelist check.
#[derive(Clone, Debug, PartialEq, Eq)]
pub struct PdaWhitelistCheck {
    pub vault_config: VaultConfig,
    /// The records of the vault.
    pub whitelist: PdaWhitelist,
}

/// Reports the record of `user`.
///
/// Fails with `NotWhitelisted` where the user has no record. Nothing is
/// changed, and anybody may ask.
pub fn handler(ctx: &PdaWhitelistCheck, user: Address) -> (r: Result<WhitelistEntryPda, VaultError>)
    ensures
        match record_of(
            ctx.whitelist.accounts@,
            ctx.whitelist.program_id,
            ctx.whitelist.vault_config,
            user,
        ) {
            Some(entry) => r == Ok::<WhitelistEntryPda, VaultError>(entry),
            None => r == Err::<WhitelistEntryPda, VaultError>(VaultError::NotWhitelisted),
        },
{
    match ctx.whitelist.lookup(&user) {
        Some(entry) => Ok(entry),
        None => Err(VaultError::NotWhitelisted),
    }
}

} // verus!
