//! Setting up the hook's metadata account, which tells the token program
//! which extra accounts to pass to the transfer hook.

use vstd::prelude::*;
use crate::address::Address;
use crate::derivation::{derive_extra_metas, derived_identity, role_tag_bytes, Role, WHITELIST_SEED};
use crate::extra_metas::{
    address_config, extra_meta_with_seeds, packed_seeds, ExtraMeta, SeedConfig, SeedSpec,
};
use crate::transfer_hook_vault::error::VaultError;
use crate::transfer_hook_vault::state::VaultConfig;

verus! {

/// Position of the mint in the account list of a hooked transfer.
pub const MINT_ACCOUNT_INDEX: u8 = 1;

/// The accounts of the metadata setup.
#[derive(Clone, Copy, Debug, PartialEq, Eq)]
pub struct InitializeExtraMetas {
    /// Pays for the metadata account.
    pub payer: Address,
    pub vault_config: VaultConfig,
    /// The signer of the request.
    pub authority: Address,
    /// The denomination whose transfers are hooked.
    pub mint: Address,
}

/// The metadata account to be written.
#[derive(Clone, Debug, PartialEq, Eq)]
pub struct ExtraMetas {
    /// Where the metadata account lives.
    pub address: Address,
    /// The extra accounts of the hook, in order.
    pub metas: Vec<ExtraMeta>,
}

/// The seeds of the one extra account of the hook, the aggregate
/// whitelist: its tag, then the key of the transfer's mint.
pub open spec fn whitelist_seeds() -> Seq<SeedSpec> {
    seq![
        SeedSpec::Literal { bytes: WHITELIST_SEED@ },
        SeedSpec::AccountKey { index: MINT_ACCOUNT_INDEX },
    ]
}

/// The description of the whitelist account as an extra account of the
/// hook: found by its seeds, neither signing nor writable.
pub open spec fn is_whitelist_meta(meta: ExtraMeta) -> bool {
    &&& meta.discriminator == 1
    &&& meta.address_config@ == address_config(whitelist_seeds())
    &&& !meta.is_signer
    &&& !meta.is_writable
}

/// The packed seeds of the whitelist account take 13 bytes.
pub proof fn lemma_whitelist_seeds_fit()
    ensures
        packed_seeds(whitelist_seeds()).len() == 13,
        whitelist_seeds()[0].packable(),
        whitelist_seeds()[1].packable(),
{
    let seeds = whitelist_seeds();
    assert(seeds.drop_last() =~= seq![seeds[0]]);
    assert(seeds.drop_last().drop_last() =~= Seq::<SeedSpec>::empty());
    reveal_with_fuel(packed_seeds, 3);
}

/// Describes the whitelist account as an extra account of the hook.
pub fn whitelist_meta() -> (meta: ExtraMeta)
    ensures
        is_whitelist_meta(meta),
{
    let mut seeds: Vec<SeedConfig> = Vec::new();
    seeds.push(SeedConfig::Literal { bytes: role_tag_bytes(Role::AggregateWhitelist) });
    seeds.push(SeedConfig::AccountKey { index: MINT_ACCOUNT_INDEX });
    proof {
        lemma_whitelist_seeds_fit();
        assert(seeds.deep_view() =~= whitelist_seeds());
    }
    match extra_meta_with_seeds(&seeds, false, false) {
        Some(meta) => meta,
        None => vstd::pervasive::unreached(),
    }
}

/// What the setup gives: the address and bump of the metadata account, or
/// the reason for which nothing is set up.
pub open spec fn outcome(ctx: InitializeExtraMetas, program_id: Address) -> Result<
    (Address, u8),
    VaultError,
> {
    if ctx.vault_config.authority != ctx.authority {
        Err(VaultError::UnauthorizedAuthority)
    } else {
        match derived_identity(Role::InterceptionMetadata, seq![ctx.mint], program_id) {
            Some(found) => Ok(found),
            None => Err(VaultError::IdentityUnavailable),
        }
    }
}

/// Sets up the metadata account of the hook for `ctx.mint` and records
/// its bump in the vault's configuration, which is otherwise left as it
/// is.
///
/// Fails with `UnauthorizedAuthority` where the signer is not the vault's
/// authority, else with `IdentityUnavailable` where the metadata account
/// has no derivable address. A failure changes nothing.
pub fn handler(ctx: &mut InitializeExtraMetas, program_id: &Address) -> (r: Result<
    ExtraMetas,
    VaultError,
>)
    ensures
        final(ctx).payer == old(ctx).payer,
        final(ctx).authority == old(ctx).authority,
        final(ctx).mint == old(ctx).mint,
        match outcome(*old(ctx), *program_id) {
            Ok((address, bump)) => {
                &&& r is Ok
                &&& r->Ok_0.address == address
                &&& r->Ok_0.metas@.len() == 1
                &&& is_whitelist_meta(r->Ok_0.metas@[0])
                &&& final(ctx).vault_config == VaultConfig {
                    extra_metas_bump: bump,
                    ..old(ctx).vault_config
                }
            },
            Err(e) => r == Err::<ExtraMetas, VaultError>(e) && final(ctx).vault_config == old(
                ctx,
            ).vault_config,
        },
{
    if !ctx.vault_config.authority.equals(&ctx.authority) {
        return Err(VaultError::UnauthorizedAuthority);
    }
    match derive_extra_metas(&ctx.mint, program_id) {
        None => Err(VaultError::IdentityUnavailable),
        Some((address, bump)) => {
            let mut metas: Vec<ExtraMeta> = Vec::new();
            metas.push(whitelist_meta());
            ctx.vault_config.extra_metas_bump = bump;
            Ok(ExtraMetas { address, metas })
        },
    }
}

} // verus!
