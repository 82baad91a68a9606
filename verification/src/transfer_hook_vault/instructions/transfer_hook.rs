//! The transfer hook: the check the token program runs on every transfer
//! of the vault's denomination.

use vstd::prelude::*;
use crate::address::Address;
use crate::authorization::{Decision, DenyReason, WhitelistStore};
use crate::derivation::{derive_vault, derived_identity, Role};
use crate::interceptor::{intercept, intercept_decision, TransferEvent};
use crate::transfer_hook_vault::error::VaultError;
use crate::transfer_hook_vault::state::Whitelist;

verus! {

/// The accounts of a hooked transfer.
#[derive(Clone, Debug, PartialEq, Eq)]
pub struct TransferHook {
    /// The token account the amount leaves.
    pub source: Address,
    /// The denomination that is moved.
    pub mint: Address,
    /// The token account the amount goes to.
    pub destination: Address,
    /// The owner of the source account.
    pub source_authority: Address,
    pub whitelist: Whitelist,
}

impl TransferHook {
    /// The transfer of `amount` as the interceptor sees it.
    pub open spec fn event(&self, amount: u64) -> TransferEvent {
        TransferEvent {
            source_authority: self.source_authority,
            destination: self.destination,
            amount,
            mint: self.mint,
        }
    }
}

/// The answer that the token program gets for a decision: a denial keeps
/// its reason.
pub open spec fn verdict(decision: Decision) -> Result<(), VaultError> {
    match decision {
        Decision::Allow => Ok(()),
        Decision::Deny(DenyReason::NotWhitelisted) => Err(VaultError::NotWhitelisted),
        Decision::Deny(DenyReason::AmountExceedsLimit) => Err(VaultError::AmountExceedsLimit),
    }
}

/// What the hook answers: the verdict on the transfer, taken against the
/// holding account derived for the denomination.
pub open spec fn outcome(ctx: TransferHook, program_id: Address, amount: u64) -> Result<
    (),
    VaultError,
> {
    match derived_identity(Role::HoldingAccount, seq![ctx.mint], program_id) {
        None => Err(VaultError::IdentityUnavailable),
        Some((vault, _)) => verdict(
            intercept_decision(
                vault,
                ctx.whitelist.ceiling_of(ctx.source_authority),
                ctx.event(amount),
            ),
        ),
    }
}

/// Allows or vetoes the transfer of `amount`.
///
/// A transfer into the vault's holding account passes. Any other transfer
/// fails with `NotWhitelisted` where the source's owner is not
/// whitelisted, and with `AmountExceedsLimit` where the amount is above
/// the owner's ceiling. Where the denomination has no derivable holding
/// account, every transfer fails with `IdentityUnavailable`.
pub fn handler(ctx: &TransferHook, program_id: &Address, amount: u64) -> (r: Result<
    (),
    VaultError,
>)
    ensures
        r == outcome(*ctx, *program_id, amount),
{
    let vault = match derive_vault(&ctx.mint, program_id) {
        Some((vault, _)) => vault,
        None => { return Err(VaultError::IdentityUnavailable); },
    };
    let event = TransferEvent {
        source_authority: ctx.source_authority,
        destination: ctx.destination,
        amount,
        mint: ctx.mint,
    };
    match intercept(&ctx.whitelist, &vault, &event) {
        Decision::Allow => Ok(()),
        Decision::Deny(DenyReason::NotWhitelisted) => Err(VaultError::NotWhitelisted),
        Decision::Deny(DenyReason::AmountExceedsLimit) => Err(VaultError::AmountExceedsLimit),
    }
}

} // verus!
