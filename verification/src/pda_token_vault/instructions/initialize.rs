//! Creating a vault: its configuration.

use vstd::prelude::*;
use crate::address::Address;
use crate::derivation::{derive_vault, derive_vault_config, derived_identity, Role};
use crate::pda_token_vault::error::VaultError;
use crate::pda_token_vault::state::VaultConfig;

verus! {

/// The accounts of a vault creation.
#[derive(Clone, Copy, Debug, PartialEq, Eq)]
pub struct Initialize {
    /// Creates the vault and becomes its authority.
    pub authority: Address,
    /// The denomination the vault is for.
    pub mint: Address,
}

/// The address and the configuration of the vault that `ctx` creates under
/// `program_id`, or `None` where one of the vault's accounts has no
/// derivable address.
pub open spec fn initial_vault(ctx: Initialize, program_id: Address) -> Option<
    (Address, VaultConfig),
> {
    match (
        derived_identity(Role::VaultConfig, seq![ctx.mint], program_id),
        derived_identity(Role::HoldingAccount, seq![ctx.mint], program_id),
    ) {
        (Some((config_address, config_bump)), Some((_, vault_bump))) => Some(
            (
                config_address,
                VaultConfig { authority: ctx.authority, mint: ctx.mint, config_bump, vault_bump },
            ),
        ),
        _ => None,
    }
}

/// Creates the vault for `ctx.mint` under `ctx.authority`: gives the
/// address of its configuration account and the configuration, which
/// records the bumps of the configuration and holding accounts.
///
/// Fails with `IdentityUnavailable` where one of the two accounts has no
/// derivable address.
pub fn handler(ctx: &Initialize, program_id: &Address) -> (r: Result<
    (Address, VaultConfig),
    VaultError,
>)
    ensures
        match initial_vault(*ctx, *program_id) {
            Some(created) => r == Ok::<(Address, VaultConfig), VaultError>(created),
            None => r == Err::<(Address, VaultConfig), VaultError>(
                VaultError::IdentityUnavailable,
            ),
        },
{
    let (config_address, config_bump) = match derive_vault_config(&ctx.mint, program_id) {
        Some(found) => found,
        None => { return Err(VaultError::IdentityUnavailable); },
    };
    let (_, vault_bump) = match derive_vault(&ctx.mint, program_id) {
        Some(found) => found,
        None => { return Err(VaultError::IdentityUnavailable); },
    };
    Ok(
        (
            config_address,
            VaultConfig { authority: ctx.authority, mint: ctx.mint, config_bump, vault_bump },
        ),
    )
}

} // verus!
