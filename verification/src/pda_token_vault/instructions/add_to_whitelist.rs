//! Adding a principal to the whitelist: creating its record.

use vstd::prelude::*;
use crate::address::Address;
use crate::pda_token_vault::error::VaultError;
use crate::pda_token_vault::state::VaultConfig;
use crate::pda_whitelist::{create_outcome, EntryAccount, EntryError, PdaWhitelist};

verus! {

/// The accounts of a record creation.
#[derive(Clone, Debug, PartialEq, Eq)]
pub struct AddToWhitelist {
    /// The signer of the request, who also pays for the record.
    pub authority: Address,
    pub vault_config: VaultConfig,
    /// The records of the vault.
    pub whitelist: PdaWhitelist,
}

/// The error a failed creation or destruction is reported as.
pub open spec fn entry_error(e: EntryError) -> VaultError {
    match e {
        EntryError::AlreadyExists => VaultError::AlreadyExists,
        EntryError::NotFound => VaultError::NotFound,
        EntryError::PrincipalMismatch => VaultError::PrincipalMismatch,
        EntryError::IdentityUnavailable => VaultError::IdentityUnavailable,
    }
}

/// The error a failed creation or destruction is reported as.
pub fn report(e: EntryError) -> (reported: VaultError)
    ensures
        reported == entry_error(e),
{
    match e {
        EntryError::AlreadyExists => VaultError::AlreadyExists,
        EntryError::NotFound => VaultError::NotFound,
        EntryError::PrincipalMismatch => VaultError::PrincipalMismatch,
        EntryError::IdentityUnavailable => VaultError::IdentityUnavailable,
    }
}

/// What the request gives: the records with the new one, or the reason for
/// which none is created.
pub open spec fn outcome(
    authority: Address,
    vault_config: VaultConfig,
    accounts: Seq<EntryAccount>,
    program_id: Address,
    config_address: Address,
    user: Address,
    max_amount: u64,
) -> Result<Seq<EntryAccount>, VaultError> {
    if vault_config.authority != authority {
        Err(VaultError::UnauthorizedAuthority)
    } else {
        match create_outcome(accounts, program_id, config_address, user, max_amount) {
            Ok(grown) => Ok(grown),
            Err(e) => Err(entry_error(e)),
        }
    }
}

/// Creates the record of `user` with ceiling `max_amount`.
///
/// Fails with `UnauthorizedAuthority` where the signer is not the vault's
/// authority, else with `IdentityUnavailable` where the record has no
/// derivable address, else with `AlreadyExists` where a record lives at
/// that address. A failure changes nothing.
pub fn handler(ctx: &mut AddToWhitelist, user: Address, max_amount: u64) -> (r: Result<
    (),
    VaultError,
>)
    ensures
        final(ctx).authority == old(ctx).authority,
        final(ctx).vault_config == old(ctx).vault_config,
        final(ctx).whitelist.program_id == old(ctx).whitelist.program_id,
        final(ctx).whitelist.vault_config == old(ctx).whitelist.vault_config,
        match outcome(
            old(ctx).authority,
            old(ctx).vault_config,
            old(ctx).whitelist.accounts@,
            old(ctx).whitelist.program_id,
            old(ctx).whitelist.vault_config,
            user,
            max_amount,
        ) {
            Ok(accounts) => r is Ok && final(ctx).whitelist.accounts@ == accounts,
            Err(e) => r == Err::<(), VaultError>(e) && final(ctx).whitelist.accounts@ == old(
                ctx,
            ).whitelist.accounts@,
        },
        old(ctx).whitelist.wf() ==> final(ctx).whitelist.wf(),
{
    if !ctx.vault_config.authority.equals(&ctx.authority) {
        return Err(VaultError::UnauthorizedAuthority);
    }
    match ctx.whitelist.create(user, max_amount) {
        Ok(()) => Ok(()),
        Err(e) => Err(report(e)),
    }
}

} // verus!
