//! Depositing into the vault's holding account.

use vstd::prelude::*;
use crate::address::Address;
use crate::custody::{deposit, deposit_order, TransferOrder};
use crate::transfer_hook_vault::error::VaultError;
use crate::transfer_hook_vault::state::VaultConfig;

verus! {

/// The accounts of a deposit.
#[derive(Clone, Copy, Debug, PartialEq, Eq)]
pub struct Deposit {
    /// The signer of the request and owner of the source account.
    pub depositor: Address,
    pub vault_config: VaultConfig,
    /// The denomination that is deposited.
    pub mint: Address,
    /// The decimals that the denomination declares.
    pub decimals: u8,
    /// The token account the amount is taken from.
    pub depositor_token_account: Address,
    /// The vault's holding account.
    pub vault: Address,
}

/// What a deposit gives: the movement into the holding account, or the
/// reason for which there is none.
pub open spec fn outcome(ctx: Deposit, amount: u64) -> Result<TransferOrder, VaultError> {
    if ctx.vault_config.mint != ctx.mint {
        Err(VaultError::InvalidMint)
    } else {
        Ok(
            deposit_order(
                ctx.depositor,
                ctx.depositor_token_account,
                ctx.vault,
                ctx.mint,
                amount,
                ctx.decimals,
            ),
        )
    }
}

/// Decides on a deposit of `amount`.
///
/// Fails with `InvalidMint` where the denomination is not the vault's. The
/// whitelist is not consulted: whoever deposits, and however much, the
/// deposit is accepted.
pub fn handler(ctx: &Deposit, amount: u64) -> (r: Result<TransferOrder, VaultError>)
    ensures
        r == outcome(*ctx, amount),
{
    if !ctx.vault_config.mint.equals(&ctx.mint) {
        return Err(VaultError::InvalidMint);
    }
    Ok(
        deposit(
            &ctx.depositor,
            &ctx.depositor_token_account,
            &ctx.vault,
            &ctx.mint,
            amount,
            ctx.decimals,
        ),
    )
}

} // verus!
