//! Withdrawing from the vault's holding account.

use vstd::prelude::*;
use crate::address::Address;
use crate::authorization::{is_within_limit, within_limit, WhitelistStore};
use crate::custody::{withdrawal, withdrawal_order, TransferOrder};
use crate::derivation::{replay_vault, replayed_identity, Role};
use crate::pda_token_vault::error::VaultError;
use crate::pda_token_vault::state::VaultConfig;
use crate::pda_whitelist::PdaWhitelist;

verus! {

/// The accounts of a withdrawal.
#[derive(Clone, Debug, PartialEq, Eq)]
pub struct Withdraw {
    /// The signer of the request and owner of the receiving account.
    pub withdrawer: Address,
    /// The denomination that is withdrawn.
    pub mint: Address,
    /// The decimals that the denomination declares.
    pub decimals: u8,
    pub vault_config: VaultConfig,
    /// The records of the vault.
    pub whitelist: PdaWhitelist,
    /// The token account that receives the amount.
    pub withdrawer_token_account: Address,
}

/// What a withdrawal gives: the movement out of the holding account, or
/// the reason for which there is none. The holding account is the one that
/// the configuration's bump gives for the denomination.
pub open spec fn outcome(ctx: Withdraw, program_id: Address, amount: u64) -> Result<
    TransferOrder,
    VaultError,
> {
    match ctx.whitelist.ceiling_of(ctx.withdrawer) {
        None => Err(VaultError::NotWhitelisted),
        Some(ceiling) => match replayed_identity(
            Role::HoldingAccount,
            seq![ctx.mint],
            ctx.vault_config.vault_bump,
            program_id,
        ) {
            None => Err(VaultError::IdentityUnavailable),
            Some(vault) => if within_limit(ceiling, amount) {
                Ok(
                    withdrawal_order(
                        vault,
                        ctx.vault_config.vault_bump,
                        ctx.withdrawer_token_account,
                        ctx.mint,
                        amount,
                        ctx.decimals,
                    ),
                )
            } else {
                Err(VaultError::AmountExceedsLimit)
            },
        },
    }
}

/// Decides on a withdrawal of `amount` by `ctx.withdrawer`.
///
/// Fails with `NotWhitelisted` where the withdrawer has no record, else
/// with `IdentityUnavailable` where the configuration's bump gives no
/// holding account, else with `AmountExceedsLimit` where the amount is
/// above the record's ceiling. A refused withdrawal moves nothing; an
/// allowed one is signed by the program for the holding account.
pub fn handler(ctx: &Withdraw, program_id: &Address, amount: u64) -> (r: Result<
    TransferOrder,
    VaultError,
>)
    ensures
        r == outcome(*ctx, *program_id, amount),
{
    let ceiling = match ctx.whitelist.find_ceiling(&ctx.withdrawer) {
        Some(ceiling) => ceiling,
        None => { return Err(VaultError::NotWhitelisted); },
    };
    let vault = match replay_vault(&ctx.mint, ctx.vault_config.vault_bump, program_id) {
        Some(vault) => vault,
        None => { return Err(VaultError::IdentityUnavailable); },
    };
    if !is_within_limit(ceiling, amount) {
        return Err(VaultError::AmountExceedsLimit);
    }
    Ok(
        withdrawal(
            &vault,
            ctx.vault_config.vault_bump,
            &ctx.withdrawer_token_account,
            &ctx.mint,
            amount,
            ctx.decimals,
        ),
    )
}

} // verus!
