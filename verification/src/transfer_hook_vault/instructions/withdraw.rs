//! Withdrawing from the vault's holding account.

use vstd::prelude::*;
use crate::address::Address;
use crate::authorization::{decide, Decision, DenyReason, WhitelistStore};
use crate::custody::{withdraw, withdrawal_order, TransferOrder};
use crate::derivation::{replay_vault, replayed_identity, Role};
use crate::transfer_hook_vault::error::VaultError;
use crate::transfer_hook_vault::state::{VaultConfig, Whitelist};

verus! {

/// The accounts of a withdrawal.
#[derive(Clone, Debug, PartialEq, Eq)]
pub struct Withdraw {
    /// The signer of the request and owner of the receiving account.
    pub withdrawer: Address,
    pub vault_config: VaultConfig,
    pub whitelist: Whitelist,
    /// The denomination that is withdrawn.
    pub mint: Address,
    /// The decimals that the denomination declares.
    pub decimals: u8,
    /// The token account that receives the amount.
    pub withdrawer_token_account: Address,
}

/// The error a refused withdrawal is reported as.
pub open spec fn refusal(reason: DenyReason) -> VaultError {
    match reason {
        DenyReason::NotWhitelisted => VaultError::NotWhitelisted,
        DenyReason::AmountExceedsLimit => VaultError::AmountExceedsLimit,
    }
}

/// What a withdrawal gives: the movement out of the holding account, or
/// the reason for which there is none. The holding account is the one that
/// the configuration's bump gives for the denomination.
pub open spec fn outcome(ctx: Withdraw, program_id: Address, amount: u64) -> Result<
    TransferOrder,
    VaultError,
> {
    if ctx.vault_config.mint != ctx.mint {
        Err(VaultError::InvalidMint)
    } else {
        match replayed_identity(
            Role::HoldingAccount,
            seq![ctx.mint],
            ctx.vault_config.vault_bump,
            program_id,
        ) {
            None => Err(VaultError::IdentityUnavailable),
            Some(vault) => match decide(ctx.whitelist.ceiling_of(ctx.withdrawer), amount) {
                Decision::Allow => Ok(
                    withdrawal_order(
                        vault,
                        ctx.vault_config.vault_bump,
                        ctx.withdrawer_token_account,
                        ctx.mint,
                        amount,
                        ctx.decimals,
                    ),
                ),
                Decision::Deny(reason) => Err(refusal(reason)),
            },
        }
    }
}

/// Decides on a withdrawal of `amount` by `ctx.withdrawer`.
///
/// Fails with `InvalidMint` where the denomination is not the vault's,
/// else with `IdentityUnavailable` where the configuration's bump gives no
/// holding account, else with `NotWhitelisted` where the withdrawer is not
/// listed, else with `AmountExceedsLimit` where the amount is above the
/// withdrawer's ceiling. A refused withdrawal moves nothing; an allowed one
/// is signed by the program for the holding account.
pub fn handler(ctx: &Withdraw, program_id: &Address, amount: u64) -> (r: Result<
    TransferOrder,
    VaultError,
>)
    ensures
        r == outcome(*ctx, *program_id, amount),
{
    if !ctx.vault_config.mint.equals(&ctx.mint) {
        return Err(VaultError::InvalidMint);
    }
    let vault = match replay_vault(&ctx.mint, ctx.vault_config.vault_bump, program_id) {
        Some(vault) => vault,
        None => { return Err(VaultError::IdentityUnavailable); },
    };
    match withdraw(
        &ctx.whitelist,
        &ctx.withdrawer,
        &vault,
        ctx.vault_config.vault_bump,
        &ctx.withdrawer_token_account,
        &ctx.mint,
        amount,
        ctx.decimals,
    ) {
        Ok(order) => Ok(order),
        Err(DenyReason::NotWhitelisted) => Err(VaultError::NotWhitelisted),
        Err(DenyReason::AmountExceedsLimit) => Err(VaultError::AmountExceedsLimit),
    }
}

} // verus!
