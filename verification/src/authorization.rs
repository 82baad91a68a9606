//! The authorization predicate: may this principal move this amount?
//!
//! The predicate reads a whitelist through the [`WhitelistStore`] capability
//! and never changes it. A ceiling of zero means no limit; any other ceiling
//! bounds each single amount, inclusively, and keeps no running total.

use vstd::prelude::*;
use crate::address::Address;

verus! {

/// Why a movement was refused.
#[derive(Clone, Copy, Debug, PartialEq, Eq, Structural)]
pub enum DenyReason {
    /// The principal is not on the whitelist.
    NotWhitelisted,
    /// The amount is above the principal's ceiling.
    AmountExceedsLimit,
}

/// The outcome of an authorization check.
#[derive(Clone, Copy, Debug, PartialEq, Eq, Structural)]
pub enum Decision {
    Allow,
    Deny(DenyReason),
}

/// Whether `amount` respects `ceiling`.
pub open spec fn within_limit(ceiling: u64, amount: u64) -> bool {
    ceiling == 0 || amount <= ceiling
}

/// The decision for a principal whose whitelist ceiling is `ceiling`
/// (`None`: not whitelisted) and who wants to move `amount`.
pub open spec fn decide(ceiling: Option<u64>, amount: u64) -> Decision {
    match ceiling {
        None => Decision::Deny(DenyReason::NotWhitelisted),
        Some(c) => if within_limit(c, amount) {
            Decision::Allow
        } else {
            Decision::Deny(DenyReason::AmountExceedsLimit)
        },
    }
}

/// Whether `amount` respects `ceiling`: zero is no limit, anything else an
/// inclusive bound.
pub fn is_within_limit(ceiling: u64, amount: u64) -> (ok: bool)
    ensures
        ok == within_limit(ceiling, amount),
{
    ceiling == 0 || amount <= ceiling
}

/// What enforcement needs from a whitelist, whichever way it is stored.
pub trait WhitelistStore {
    /// The ceiling recorded for `principal`, or `None` where the principal
    /// is not whitelisted.
    spec fn ceiling_of(&self, principal: Address) -> Option<u64>;

    /// Looks up the ceiling recorded for `principal`.
    fn find_ceiling(&self, principal: &Address) -> (ceiling: Option<u64>)
        ensures
            ceiling == self.ceiling_of(*principal),
    ;
}

/// Decides whether `principal` may move `amount` under the whitelist in
/// `store`.
///
/// Denies with `NotWhitelisted` where the principal has no entry, allows
/// where the entry's ceiling is zero or at least `amount`, and denies with
/// `AmountExceedsLimit` otherwise. The store is only read.
pub fn authorize<S: WhitelistStore>(store: &S, principal: &Address, amount: u64) -> (decision:
    Decision)
    ensures
        decision == decide(store.ceiling_of(*principal), amount),
{
    match store.find_ceiling(principal) {
        None => Decision::Deny(DenyReason::NotWhitelisted),
        Some(ceiling) => {
            if is_within_limit(ceiling, amount) {
                Decision::Allow
            } else {
                Decision::Deny(DenyReason::AmountExceedsLimit)
            }
        },
    }
}

/// With a ceiling above zero, a whitelisted principal is allowed exactly
/// the amounts up to the ceiling; with a ceiling of zero, every amount,
/// the largest representable one included.
pub proof fn law_ceiling(ceiling: u64, amount: u64)
    ensures
        ceiling > 0 ==> (decide(Some(ceiling), amount) == Decision::Allow <==> amount <= ceiling),
        ceiling > 0 && amount > ceiling ==> decide(Some(ceiling), amount) == Decision::Deny(
            DenyReason::AmountExceedsLimit,
        ),
        decide(Some(0), amount) == Decision::Allow,
        decide(Some(0), u64::MAX) == Decision::Allow,
{
}

/// A principal without an entry is denied every amount.
pub proof fn law_absent_denied(amount: u64)
    ensures
        decide(None, amount) == Decision::Deny(DenyReason::NotWhitelisted),
{
}

} // verus!
