//! Creating a vault: its configuration and its empty whitelist.

use vstd::prelude::*;
use crate::address::Address;
use crate::derivation::{
    derive_vault, derive_vault_config, derive_whitelist, derived_identity, Role,
};
use crate::transfer_hook_vault::error::VaultError;
use crate::transfer_hook_vault::state::{VaultConfig, Whitelist, WhitelistEntry};

verus! {

/// The accounts of a vault creation.
#[derive(Clone, Copy, Debug, PartialEq, Eq)]
pub struct Initialize {
    /// Creates the vault and becomes its authority.
    pub authority: Address,
    /// The denomination the vault is for.
    pub mint: Address,
}

/// A freshly created vault: its two accounts with the addresses they live
/// at.
#[derive(Clone, Debug, PartialEq, Eq)]
pub struct Initialized {
    pub vault_config_address: Address,
    pub vault_config: VaultConfig,
    pub whitelist_address: Address,
    pub whitelist: Whitelist,
}

/// The addresses and the configuration of the vault that `ctx` creates
/// under `program_id`: configuration address, configuration, whitelist
/// address. `None` where one of the vault's accounts has no derivable
/// address.
pub open spec fn initial_vault(ctx: Initialize, program_id: Address) -> Option<
    (Address, VaultConfig, Address),
> {
    match (
        derived_identity(Role::VaultConfig, seq![ctx.mint], program_id),
        derived_identity(Role::HoldingAccount, seq![ctx.mint], program_id),
        derived_identity(Role::AggregateWhitelist, seq![ctx.mint], program_id),
    ) {
        (Some((config_address, config_bump)), Some((_, vault_bump)), Some((whitelist_address, whitelist_bump))) => Some(
            (
                config_address,
                VaultConfig {
                    authority: ctx.authority,
                    mint: ctx.mint,
                    config_bump,
                    vault_bump,
                    whitelist_bump,
                    extra_metas_bump: 0,
                },
                whitelist_address,
            ),
        ),
        _ => None,
    }
}

/// Creates the vault for `ctx.mint` under `ctx.authority`.
///
/// The configuration records the bumps of the configuration, holding and
/// whitelist accounts; the bump of the interception metadata account
/// stays zero until that account is set up. The whitelist starts empty.
/// Fails with `IdentityUnavailable` where one of the accounts has no
/// derivable address.
pub fn handler(ctx: &Initialize, program_id: &Address) -> (r: Result<Initialized, VaultError>)
    ensures
        match initial_vault(*ctx, *program_id) {
            Some((config_address, config, whitelist_address)) => {
                &&& r is Ok
                &&& r->Ok_0.vault_config_address == config_address
                &&& r->Ok_0.vault_config == config
                &&& r->Ok_0.whitelist_address == whitelist_address
                &&& r->Ok_0.whitelist.authority == ctx.authority
                &&& r->Ok_0.whitelist.entries@ == Seq::<WhitelistEntry>::empty()
            },
            None => r == Err::<Initialized, VaultError>(VaultError::IdentityUnavailable),
        },
{
    let (vault_config_address, config_bump) = match derive_vault_config(&ctx.mint, program_id) {
        Some(found) => found,
        None => { return Err(VaultError::IdentityUnavailable); },
    };
    let (_, vault_bump) = match derive_vault(&ctx.mint, program_id) {
        Some(found) => found,
        None => { return Err(VaultError::IdentityUnavailable); },
    };
    let (whitelist_address, whitelist_bump) = match derive_whitelist(&ctx.mint, program_id) {
        Some(found) => found,
        None => { return Err(VaultError::IdentityUnavailable); },
    };
    Ok(
        Initialized {
            vault_config_address,
            vault_config: VaultConfig {
                authority: ctx.authority,
                mint: ctx.mint,
                config_bump,
                vault_bump,
                whitelist_bump,
                extra_metas_bump: 0,
            },
            whitelist_address,
            whitelist: Whitelist::new(ctx.authority),
        },
    )
}

} // verus!
