//! What holds of the aggregate whitelist over any sequence of additions and
//! removals.

use vstd::prelude::*;
use crate::address::Address;
use crate::keyed_list::{
    has_key, item_of, lemma_item_of_push, lemma_unique_push, lemma_without_key, unique_keys,
};
use crate::transfer_hook_vault::constants::MAX_WHITELIST_ENTRIES;
use crate::transfer_hook_vault::error::VaultError;
use crate::authorization::{decide, within_limit, Decision, DenyReason};
use crate::transfer_hook_vault::state::{
    add_outcome, ceiling_among, remove_outcome, WhitelistEntry,
};

verus! {

/// A request to change the whitelist.
pub enum WhitelistOp {
    Add { user: Address, max_amount: u64 },
    Remove { user: Address },
}

/// The list after a request: changed where the request succeeds, as it was
/// where it fails.
pub open spec fn apply(entries: Seq<WhitelistEntry>, op: WhitelistOp) -> Seq<WhitelistEntry> {
    match op {
        WhitelistOp::Add { user, max_amount } => match add_outcome(entries, user, max_amount) {
            Ok(grown) => grown,
            Err(_) => entries,
        },
        WhitelistOp::Remove { user } => match remove_outcome(entries, user) {
            Ok(shrunk) => shrunk,
            Err(_) => entries,
        },
    }
}

/// The list that a sequence of requests leaves, starting from the empty one.
pub open spec fn replay(ops: Seq<WhitelistOp>) -> Seq<WhitelistEntry>
    decreases ops.len(),
{
    if ops.len() == 0 {
        Seq::empty()
    } else {
        apply(replay(ops.drop_last()), ops.last())
    }
}

/// Whether the request at position `i` is an addition that succeeds.
pub open spec fn adds_at(ops: Seq<WhitelistOp>, i: int) -> bool {
    match ops[i] {
        WhitelistOp::Add { user, max_amount } => add_outcome(
            replay(ops.take(i)),
            user,
            max_amount,
        ) is Ok,
        WhitelistOp::Remove { .. } => false,
    }
}

/// Whatever was requested, the list holds no principal twice and stays
/// within capacity.
pub proof fn law_always_well_formed(ops: Seq<WhitelistOp>)
    ensures
        unique_keys(replay(ops)),
        replay(ops).len() <= MAX_WHITELIST_ENTRIES,
    decreases ops.len(),
{
    if ops.len() > 0 {
        let before = replay(ops.drop_last());
        law_always_well_formed(ops.drop_last());
        match ops.last() {
            WhitelistOp::Add { user, max_amount } => {
                if add_outcome(before, user, max_amount) is Ok {
                    lemma_unique_push(before, WhitelistEntry { user, max_amount });
                }
            },
            WhitelistOp::Remove { user } => {
                lemma_without_key(before, user);
            },
        }
    }
}

/// A principal that no request ever added is not on the whitelist.
pub proof fn law_never_added_never_listed(ops: Seq<WhitelistOp>, principal: Address)
    requires
        forall|i: int|
            0 <= i < ops.len() ==> !(#[trigger] ops[i] matches WhitelistOp::Add { user, .. }
                && user == principal),
    ensures
        !has_key(replay(ops), principal),
        item_of(replay(ops), principal) is None,
    decreases ops.len(),
{
    if ops.len() > 0 {
        let earlier = ops.drop_last();
        let before = replay(earlier);
        assert forall|i: int| 0 <= i < earlier.len() implies !(#[trigger] earlier[i] matches WhitelistOp::Add {
            user,
            ..
        } && user == principal) by {
            assert(earlier[i] == ops[i]);
        }
        law_never_added_never_listed(earlier, principal);
        assert(ops.last() == ops[ops.len() - 1]);
        match ops.last() {
            WhitelistOp::Add { user, max_amount } => {
                lemma_item_of_push(before, WhitelistEntry { user, max_amount }, principal);
            },
            WhitelistOp::Remove { user } => {
                lemma_without_key(before, user);
                if user != principal {
                    assert(item_of(apply(before, ops.last()), principal) == item_of(
                        before,
                        principal,
                    ));
                }
            },
        }
    }
}

/// Right after a successful addition the principal is on the whitelist,
/// with the ceiling it was added with.
pub proof fn law_listed_after_add(entries: Seq<WhitelistEntry>, user: Address, max_amount: u64)
    requires
        add_outcome(entries, user, max_amount) is Ok,
    ensures
        has_key(add_outcome(entries, user, max_amount)->Ok_0, user),
        item_of(add_outcome(entries, user, max_amount)->Ok_0, user) == Some(
            WhitelistEntry { user, max_amount },
        ),
{
    lemma_item_of_push(entries, WhitelistEntry { user, max_amount }, user);
}

/// Right after a successful removal the principal is not on the whitelist.
pub proof fn law_unlisted_after_remove(entries: Seq<WhitelistEntry>, user: Address)
    requires
        remove_outcome(entries, user) is Ok,
    ensures
        !has_key(remove_outcome(entries, user)->Ok_0, user),
        item_of(remove_outcome(entries, user)->Ok_0, user) is None,
{
    lemma_without_key(entries, user);
}

/// A principal added with a ceiling is allowed exactly the amounts within
/// that ceiling, and denied the others for exceeding it.
pub proof fn law_added_then_decided(
    entries: Seq<WhitelistEntry>,
    user: Address,
    max_amount: u64,
    amount: u64,
)
    requires
        add_outcome(entries, user, max_amount) is Ok,
    ensures
        decide(ceiling_among(add_outcome(entries, user, max_amount)->Ok_0, user), amount) == (
        if within_limit(max_amount, amount) {
            Decision::Allow
        } else {
            Decision::Deny(DenyReason::AmountExceedsLimit)
        }),
{
    law_listed_after_add(entries, user, max_amount);
}

/// A principal that was removed is denied every amount as not whitelisted.
pub proof fn law_removed_then_denied(entries: Seq<WhitelistEntry>, user: Address, amount: u64)
    requires
        remove_outcome(entries, user) is Ok,
    ensures
        decide(ceiling_among(remove_outcome(entries, user)->Ok_0, user), amount) == Decision::Deny(
            DenyReason::NotWhitelisted,
        ),
{
    law_unlisted_after_remove(entries, user);
}

/// Adding or removing one principal leaves every other principal's entry
/// as it was.
pub proof fn law_others_untouched(entries: Seq<WhitelistEntry>, op: WhitelistOp, other: Address)
    requires
        match op {
            WhitelistOp::Add { user, .. } => user != other,
            WhitelistOp::Remove { user } => user != other,
        },
    ensures
        item_of(apply(entries, op), other) == item_of(entries, other),
{
    match op {
        WhitelistOp::Add { user, max_amount } => {
            lemma_item_of_push(entries, WhitelistEntry { user, max_amount }, other);
        },
        WhitelistOp::Remove { user } => {
            lemma_without_key(entries, user);
        },
    }
}

/// A run of successful additions from the empty list holds as many entries
/// as there were additions.
pub proof fn lemma_adds_count(ops: Seq<WhitelistOp>)
    requires
        forall|i: int| 0 <= i < ops.len() ==> adds_at(ops, i),
    ensures
        replay(ops).len() == ops.len(),
    decreases ops.len(),
{
    if ops.len() > 0 {
        let earlier = ops.drop_last();
        assert forall|i: int| 0 <= i < earlier.len() implies adds_at(earlier, i) by {
            assert(adds_at(ops, i));
            assert(earlier[i] == ops[i]);
            assert(earlier.take(i) =~= ops.take(i));
        }
        lemma_adds_count(earlier);
        let n = ops.len() - 1;
        assert(adds_at(ops, n));
        assert(ops.take(n) =~= earlier);
    }
}

/// After as many successful additions as the capacity, the next addition
/// fails with `WhitelistFull`, whoever it is for.
pub proof fn law_full_at_capacity(ops: Seq<WhitelistOp>, user: Address, max_amount: u64)
    requires
        ops.len() == MAX_WHITELIST_ENTRIES,
        forall|i: int| 0 <= i < ops.len() ==> adds_at(ops, i),
    ensures
        add_outcome(replay(ops), user, max_amount) == Err::<Seq<WhitelistEntry>, VaultError>(
            VaultError::WhitelistFull,
        ),
{
    lemma_adds_count(ops);
}

/// One removal from a full list makes room: the next addition of a
/// principal that is not listed succeeds.
pub proof fn law_room_after_removal(
    entries: Seq<WhitelistEntry>,
    removed: Address,
    user: Address,
    max_amount: u64,
)
    requires
        unique_keys(entries),
        entries.len() <= MAX_WHITELIST_ENTRIES,
        remove_outcome(entries, removed) is Ok,
        !has_key(entries, user) || user == removed,
    ensures
        remove_outcome(entries, removed)->Ok_0.len() == entries.len() - 1,
        add_outcome(remove_outcome(entries, removed)->Ok_0, user, max_amount) is Ok,
{
    lemma_without_key(entries, removed);
    let after = remove_outcome(entries, removed)->Ok_0;
    if user != removed {
        assert(item_of(after, user) == item_of(entries, user));
    }
}

} // verus!
