//! Depositing into the vault's holding account.

use vstd::prelude::*;
use crate::address::Address;
use crate::custody::{deposit, deposit_order, TransferOrder};
use crate::derivation::{replay_vault, replayed_identity, Role};
use crate::pda_token_vault::error::VaultError;
use crate::pda_token_vault::state::VaultConfig;

verus! {

/// The accounts of a deposit.
#[derive(Clone, Copy, Debug, PartialEq, Eq)]
pub struct Deposit {
    /// The signer of the request and owner of the source account.
    pub depositor: Address,
    /// The denomination that is deposited.
    pub mint: Address,
    /// The decimals that the denomination declares.
    pub decimals: u8,
    pub vault_config: VaultConfig,
    /// The token account the amount is taken from.
    pub depositor_token_account: Address,
}

/// What a deposit gives: the movement into the holding account that the
/// configuration's bump gives for the denomination, or the reason for
/// which there is none.
pub open spec fn outcome(ctx: Deposit, program_id: Address, amount: u64) -> Result<
    TransferOrder,
    VaultError,
> {
    match replayed_identity(
        Role::HoldingAccount,
        seq![ctx.mint],
        ctx.vault_config.vault_bump,
        program_id,
    ) {
        None => Err(VaultError::IdentityUnavailable),
        Some(vault) => Ok(
            deposit_order(
                ctx.depositor,
                ctx.depositor_token_account,
                vault,
                ctx.mint,
                amount,
                ctx.decimals,
            ),
        ),
    }
}

/// Describes the deposit of `amount` into the holding account.
///
/// Fails with `IdentityUnavailable` where the configuration's bump gives
/// no holding account. The whitelist is not consulted, and whether the
/// source holds the amount is for the token program to see.
pub fn handler(ctx: &Deposit, program_id: &Address, amount: u64) -> (r: Result<
    TransferOrder,
    VaultError,
>)
    ensures
        r == outcome(*ctx, *program_id, amount),
{
    match replay_vault(&ctx.mint, ctx.vault_config.vault_bump, program_id) {
        None => Err(VaultError::IdentityUnavailable),
        Some(vault) => Ok(
            deposit(
                &ctx.depositor,
                &ctx.depositor_token_account,
                &vault,
                &ctx.mint,
                amount,
                ctx.decimals,
            ),
        ),
    }
}

} // verus!
