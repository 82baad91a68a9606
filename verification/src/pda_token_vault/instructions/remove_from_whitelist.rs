//! Removing a principal from the whitelist: destroying its record, whose
//! backing funds go back to the authority.

use vstd::prelude::*;
use crate::address::Address;
use crate::pda_token_vault::error::VaultError;
use crate::pda_token_vault::instructions::add_to_whitelist::{entry_error, report};
use crate::pda_token_vault::state::VaultConfig;
use crate::pda_whitelist::{destroy_outcome, EntryAccount, PdaWhitelist};

verus! {

/// The accounts of a record destruction.
#[derive(Clone, Debug, PartialEq, Eq)]
pub struct RemoveFromWhitelist {
    /// The signer of the request, who receives the record's funds.
    pub authority: Address,
    pub vault_config: VaultConfig,
    /// The records of the vault.
    pub whitelist: PdaWhitelist,
}

/// What the request gives: the records without the user's, or the reason
/// for which none is destroyed.
pub open spec fn outcome(
    authority: Address,
    vault_config: VaultConfig,
    accounts: Seq<EntryAccount>,
    program_id: Address,
    config_address: Address,
    user: Address,
) -> Result<Seq<EntryAccount>, VaultError> {
    if vault_config.authority != authority {
        Err(VaultError::UnauthorizedAuthority)
    } else {
        match destroy_outcome(accounts, program_id, config_address, user) {
            Ok(shrunk) => Ok(shrunk),
            Err(e) => Err(entry_error(e)),
        }
    }
}

/// Destroys the record of `user`.
///
/// Fails with `UnauthorizedAuthority` where the signer is not the vault's
/// authority, else with `NotFound` where no record lives at the user's
/// derived address, else with `PrincipalMismatch` where the record there
/// names another principal. A failure changes nothing.
pub fn handler(ctx: &mut RemoveFromWhitelist, user: Address) -> (r: Result<(), VaultError>)
    ensures
        final(ctx).authority == old(ctx).authority,
        final(ctx).vault_config == old(ctx).vault_config,
        final(ctx).whitelist.program_id == old(ctx).whitelist.program_id,
        final(ctx).whitelist.vault_config == old(ctx).whitelist.vault_config,
        match outcome(
            old(ctx).authority,
            old(ctx).vault_config,
            old(ctx).whitelist.accounts@,
            old(ctx).whitelist.program_id,
            old(ctx).whitelist.vault_config,
            user,
        ) {
            Ok(accounts) => r is Ok && final(ctx).whitelist.accounts@ == accounts,
            Err(e) => r == Err::<(), VaultError>(e) && final(ctx).whitelist.accounts@ == old(
                ctx,
            ).whitelist.accounts@,
        },
        old(ctx).whitelist.wf() ==> final(ctx).whitelist.wf(),
{
    if !ctx.vault_config.authority.equals(&ctx.authority) {
        return Err(VaultError::UnauthorizedAuthority);
    }
    match ctx.whitelist.destroy(&user) {
        Ok(()) => Ok(()),
        Err(e) => Err(report(e)),
    }
}

} // verus!
