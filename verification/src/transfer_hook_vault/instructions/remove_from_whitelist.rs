//! Removing a principal from the aggregate whitelist.

use vstd::prelude::*;
use crate::address::Address;
use crate::transfer_hook_vault::error::VaultError;
use crate::transfer_hook_vault::state::{remove_outcome, VaultConfig, Whitelist, WhitelistEntry};

verus! {

/// The accounts of a removal from the whitelist.
#[derive(Clone, Debug, PartialEq, Eq)]
pub struct RemoveFromWhitelist {
    /// The signer of the request.
    pub authority: Address,
    pub vault_config: VaultConfig,
    pub whitelist: Whitelist,
}

/// What the request gives: the list without the user's entry, or the
/// reason for which nothing is removed.
pub open spec fn outcome(
    authority: Address,
    vault_config: VaultConfig,
    entries: Seq<WhitelistEntry>,
    user: Address,
) -> Result<Seq<WhitelistEntry>, VaultError> {
    if vault_config.authority != authority {
        Err(VaultError::UnauthorizedAuthority)
    } else {
        remove_outcome(entries, user)
    }
}

/// Removes `user` from the whitelist.
///
/// Fails with `UnauthorizedAuthority` where the signer is not the vault's
/// authority, else with `NotFound` where the user has no entry. A failure
/// changes nothing.
pub fn handler(ctx: &mut RemoveFromWhitelist, user: Address) -> (r: Result<(), VaultError>)
    ensures
        final(ctx).authority == old(ctx).authority,
        final(ctx).vault_config == old(ctx).vault_config,
        final(ctx).whitelist.authority == old(ctx).whitelist.authority,
        match outcome(old(ctx).authority, old(ctx).vault_config, old(ctx).whitelist.entries@, user) {
            Ok(entries) => r is Ok && final(ctx).whitelist.entries@ == entries,
            Err(e) => r == Err::<(), VaultError>(e) && final(ctx).whitelist.entries@ == old(
                ctx,
            ).whitelist.entries@,
        },
        old(ctx).whitelist.wf() ==> final(ctx).whitelist.wf(),
{
    if !ctx.vault_config.authority.equals(&ctx.authority) {
        return Err(VaultError::UnauthorizedAuthority);
    }
    ctx.whitelist.remove_entry(&user)
}

} // verus!
