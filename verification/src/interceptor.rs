//! The transfer interceptor: the check that runs on every movement of the
//! vault's denomination, whoever asked for it.
//!
//! A movement into the vault's holding account is always allowed. Any other
//! movement is put to the authorization predicate for its source principal.
//! The interceptor keeps nothing between calls: the same event against the
//! same whitelist gets the same decision.

use vstd::prelude::*;
use crate::address::Address;
use crate::authorization::{authorize, decide, Decision, DenyReason, WhitelistStore};

verus! {

/// One movement of the denomination, as the interceptor sees it.
#[derive(Clone, Copy, Debug, PartialEq, Eq)]
pub struct TransferEvent {
    /// The principal that owns the source account.
    pub source_authority: Address,
    /// The account that receives the amount.
    pub destination: Address,
    pub amount: u64,
    /// The denomination that is moved.
    pub mint: Address,
}

/// The interceptor's rule, given the ceiling of the event's source
/// principal (`None`: not whitelisted).
pub open spec fn intercept_decision(holding: Address, ceiling: Option<u64>, event: TransferEvent) -> Decision {
    if event.destination == holding {
        Decision::Allow
    } else {
        decide(ceiling, event.amount)
    }
}

/// Decides on a transfer event for the vault whose holding account is
/// `holding`.
pub fn intercept<S: WhitelistStore>(store: &S, holding: &Address, event: &TransferEvent) -> (decision:
    Decision)
    ensures
        decision == intercept_decision(*holding, store.ceiling_of(event.source_authority), *event),
{
    if event.destination.equals(holding) {
        Decision::Allow
    } else {
        authorize(store, &event.source_authority, event.amount)
    }
}

/// Fast path: a transfer into the holding account is allowed, whether or
/// not its source is whitelisted and whatever the amount.
pub proof fn law_fast_path(holding: Address, ceiling: Option<u64>, event: TransferEvent)
    requires
        event.destination == holding,
    ensures
        intercept_decision(holding, ceiling, event) == Decision::Allow,
{
}

/// Delegated path: a transfer to any other destination is denied for a
/// source that is not whitelisted, allowed for a whitelisted source within
/// its ceiling, and denied for a whitelisted source above its ceiling.
pub proof fn law_delegated_path(holding: Address, ceiling: Option<u64>, event: TransferEvent)
    requires
        event.destination != holding,
    ensures
        ceiling is None ==> intercept_decision(holding, ceiling, event) == Decision::Deny(
            DenyReason::NotWhitelisted,
        ),
        ceiling matches Some(c) && (c == 0 || event.amount <= c) ==> intercept_decision(
            holding,
            ceiling,
            event,
        ) == Decision::Allow,
        ceiling matches Some(c) && c != 0 && event.amount > c ==> intercept_decision(
            holding,
            ceiling,
            event,
        ) == Decision::Deny(DenyReason::AmountExceedsLimit),
{
}

} // verus!
