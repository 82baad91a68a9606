//! Minting new value of the vault's denomination, by its authority.

use vstd::prelude::*;
use crate::address::Address;
use crate::transfer_hook_vault::error::VaultError;
use crate::transfer_hook_vault::state::VaultConfig;

verus! {

/// The accounts of a mint request.
#[derive(Clone, Copy, Debug, PartialEq, Eq)]
pub struct MintTokens {
    /// The signer of the request.
    pub authority: Address,
    pub vault_config: VaultConfig,
    /// The denomination to mint.
    pub mint: Address,
    /// The token account that receives the minted amount.
    pub destination: Address,
}

/// A minting of the denomination to be carried out.
#[derive(Clone, Copy, Debug, PartialEq, Eq)]
pub struct MintOrder {
    pub mint: Address,
    pub to: Address,
    pub authority: Address,
    pub amount: u64,
}

/// What a mint request gives: the minting, or the reason for which there
/// is none.
pub open spec fn mint_outcome(ctx: MintTokens, amount: u64) -> Result<MintOrder, VaultError> {
    if ctx.vault_config.authority != ctx.authority {
        Err(VaultError::UnauthorizedAuthority)
    } else if ctx.vault_config.mint != ctx.mint {
        Err(VaultError::InvalidMint)
    } else {
        Ok(MintOrder { mint: ctx.mint, to: ctx.destination, authority: ctx.authority, amount })
    }
}

/// Decides on a request to mint `amount` to `ctx.destination`.
///
/// Fails with `UnauthorizedAuthority` where the signer is not the vault's
/// authority, else with `InvalidMint` where the denomination is not the
/// vault's.
pub fn handler(ctx: &MintTokens, amount: u64) -> (r: Result<MintOrder, VaultError>)
    ensures
        r == mint_outcome(*ctx, amount),
{
    if !ctx.vault_config.authority.equals(&ctx.authority) {
        return Err(VaultError::UnauthorizedAuthority);
    }
    if !ctx.vault_config.mint.equals(&ctx.mint) {
        return Err(VaultError::InvalidMint);
    }
    Ok(MintOrder { mint: ctx.mint, to: ctx.destination, authority: ctx.authority, amount })
}

} // verus!
