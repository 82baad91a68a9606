//! Adding a principal to the aggregate whitelist.

use vstd::prelude::*;
use crate::address::Address;
use crate::transfer_hook_vault::error::VaultError;
use crate::transfer_hook_vault::state::{add_outcome, VaultConfig, Whitelist, WhitelistEntry};

verus! {

/// The accounts of an addition to the whitelist.
#[derive(Clone, Debug, PartialEq, Eq)]
pub struct AddToWhitelist {
    /// The signer of the request.
    pub authority: Address,
    pub vault_config: VaultConfig,
    pub whitelist: Whitelist,
}

/// What the request gives: the grown list, or the reason for which nothing
/// is added.
pub open spec fn outcome(
    authority: Address,
    vault_config: VaultConfig,
    entries: Seq<WhitelistEntry>,
    user: Address,
    max_amount: u64,
) -> Result<Seq<WhitelistEntry>, VaultError> {
    if vault_config.authority != authority {
        Err(VaultError::UnauthorizedAuthority)
    } else {
        add_outcome(entries, user, max_amount)
    }
}

/// Adds `user` with ceiling `max_amount` to the whitelist.
///
/// Fails with `UnauthorizedAuthority` where the signer is not the vault's
/// authority, else with `WhitelistFull` where the list is at capacity,
/// else with `AlreadyWhitelisted` where the user is listed. A failure
/// changes nothing.
pub fn handler(ctx: &mut AddToWhitelist, user: Address, max_amount: u64) -> (r: Result<
    (),
    VaultError,
>)
    ensures
        final(ctx).authority == old(ctx).authority,
        final(ctx).vault_config == old(ctx).vault_config,
        final(ctx).whitelist.authority == old(ctx).whitelist.authority,
        match outcome(
            old(ctx).authority,
            old(ctx).vault_config,
            old(ctx).whitelist.entries@,
            user,
            max_amount,
        ) {
            Ok(entries) => r is Ok && final(ctx).whitelist.entries@ == entries,
            Err(e) => r == Err::<(), VaultError>(e) && final(ctx).whitelist.entries@ == old(
                ctx,
            ).whitelist.entries@,
        },
        old(ctx).whitelist.wf() ==> final(ctx).whitelist.wf(),
{
    if !ctx.vault_config.authority.equals(&ctx.authority) {
        return Err(VaultError::UnauthorizedAuthority);
    }
    ctx.whitelist.add_entry(user, max_amount)
}

} // verus!
