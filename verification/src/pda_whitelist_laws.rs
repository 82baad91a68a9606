//! What holds of the per-principal whitelist over any sequence of record
//! creations and destructions.

use vstd::prelude::*;
use crate::address::Address;
use crate::keyed_list::{
    has_key, lemma_has_first, lemma_item_of_push, lemma_unique_push, lemma_without_key,
};
use crate::authorization::{decide, within_limit, Decision, DenyReason};
use crate::pda_whitelist::{
    ceiling_among, create_outcome, destroy_outcome, entry_identity, lemma_create_effect,
    lemma_well_formed_without, record_of, well_formed, well_placed, EntryAccount,
    WhitelistEntryPda,
};

verus! {

/// A request to change the records of a vault.
pub enum EntryOp {
    Create { user: Address, max_amount: u64 },
    Destroy { user: Address },
}

/// The records after a request: changed where the request succeeds, as they
/// were where it fails.
pub open spec fn apply(
    accounts: Seq<EntryAccount>,
    program_id: Address,
    vault_config: Address,
    op: EntryOp,
) -> Seq<EntryAccount> {
    match op {
        EntryOp::Create { user, max_amount } => match create_outcome(
            accounts,
            program_id,
            vault_config,
            user,
            max_amount,
        ) {
            Ok(grown) => grown,
            Err(_) => accounts,
        },
        EntryOp::Destroy { user } => match destroy_outcome(
            accounts,
            program_id,
            vault_config,
            user,
        ) {
            Ok(shrunk) => shrunk,
            Err(_) => accounts,
        },
    }
}

/// The records that a sequence of requests leaves, starting from none.
pub open spec fn replay(ops: Seq<EntryOp>, program_id: Address, vault_config: Address) -> Seq<
    EntryAccount,
>
    decreases ops.len(),
{
    if ops.len() == 0 {
        Seq::empty()
    } else {
        apply(replay(ops.drop_last(), program_id, vault_config), program_id, vault_config, ops.last())
    }
}

/// Whatever was requested, no two records share an address and each lives
/// where its vault and principal place it: a vault never holds two records
/// for one principal.
pub proof fn law_always_well_formed(ops: Seq<EntryOp>, program_id: Address, vault_config: Address)
    ensures
        well_formed(replay(ops, program_id, vault_config), program_id, vault_config),
    decreases ops.len(),
{
    if ops.len() > 0 {
        let before = replay(ops.drop_last(), program_id, vault_config);
        law_always_well_formed(ops.drop_last(), program_id, vault_config);
        match ops.last() {
            EntryOp::Create { user, max_amount } => {
                match create_outcome(before, program_id, vault_config, user, max_amount) {
                    Ok(grown) => {
                        let (address, bump) = entry_identity(program_id, vault_config, user)->0;
                        let account = EntryAccount {
                            address,
                            entry: WhitelistEntryPda { user, max_amount, vault_config, bump },
                        };
                        lemma_unique_push(before, account);
                        assert(well_placed(account, program_id, vault_config));
                        assert forall|i: int| 0 <= i < grown.len() implies well_placed(
                            #[trigger] grown[i],
                            program_id,
                            vault_config,
                        ) by {
                            if i < before.len() {
                                assert(grown[i] == before[i]);
                            }
                        }
                    },
                    Err(_) => {},
                }
            },
            EntryOp::Destroy { user } => {
                match entry_identity(program_id, vault_config, user) {
                    Some((address, _)) => {
                        lemma_well_formed_without(before, program_id, vault_config, address);
                    },
                    None => {},
                }
            },
        }
    }
}

/// Whether a request creates the record of `principal`.
pub open spec fn creates(op: EntryOp, principal: Address) -> bool {
    op matches EntryOp::Create { user, .. } && user == principal
}

proof fn lemma_never_created_never_named(
    ops: Seq<EntryOp>,
    program_id: Address,
    vault_config: Address,
    principal: Address,
)
    requires
        forall|i: int| 0 <= i < ops.len() ==> !creates(#[trigger] ops[i], principal),
    ensures
        forall|i: int|
            0 <= i < replay(ops, program_id, vault_config).len() ==> (#[trigger] replay(
                ops,
                program_id,
                vault_config,
            )[i]).entry.user != principal,
    decreases ops.len(),
{
    if ops.len() > 0 {
        let earlier = ops.drop_last();
        let before = replay(earlier, program_id, vault_config);
        let after = replay(ops, program_id, vault_config);
        assert forall|i: int| 0 <= i < earlier.len() implies !creates(
            #[trigger] earlier[i],
            principal,
        ) by {
            assert(earlier[i] == ops[i]);
        }
        lemma_never_created_never_named(earlier, program_id, vault_config, principal);
        assert(!creates(ops[ops.len() - 1], principal));
        match ops.last() {
            EntryOp::Create { user, max_amount } => {
                assert forall|i: int| 0 <= i < after.len() implies (#[trigger] after[i]).entry.user
                    != principal by {
                    if i < before.len() {
                        assert(after[i] == before[i]);
                    }
                }
            },
            EntryOp::Destroy { user } => {
                match entry_identity(program_id, vault_config, user) {
                    Some((address, _)) => {
                        lemma_without_key(before, address);
                        assert forall|i: int| 0 <= i < after.len() implies (
                        #[trigger] after[i]).entry.user != principal by {
                            if after != before {
                                assert(before.contains(after[i]));
                                let j = choose|j: int| 0 <= j < before.len() && before[j] == after[i];
                                assert(before[j].entry.user != principal);
                            }
                        }
                    },
                    None => {},
                }
            },
        }
    }
}

/// A principal whose record no request ever created is not authorized.
pub proof fn law_never_created_never_authorized(
    ops: Seq<EntryOp>,
    program_id: Address,
    vault_config: Address,
    principal: Address,
)
    requires
        forall|i: int| 0 <= i < ops.len() ==> !creates(#[trigger] ops[i], principal),
    ensures
        record_of(replay(ops, program_id, vault_config), program_id, vault_config, principal)
            is None,
{
    lemma_never_created_never_named(ops, program_id, vault_config, principal);
    let accounts = replay(ops, program_id, vault_config);
    match entry_identity(program_id, vault_config, principal) {
        Some((address, _)) => {
            if has_key(accounts, address) {
                lemma_has_first(accounts, address);
            }
        },
        None => {},
    }
}

/// Right after a successful creation the principal is authorized, with the
/// ceiling the record was created with.
pub proof fn law_authorized_after_create(
    accounts: Seq<EntryAccount>,
    program_id: Address,
    vault_config: Address,
    principal: Address,
    max_amount: u64,
)
    requires
        create_outcome(accounts, program_id, vault_config, principal, max_amount) is Ok,
    ensures
        ({
            let grown = create_outcome(
                accounts,
                program_id,
                vault_config,
                principal,
                max_amount,
            )->Ok_0;
            let found = record_of(grown, program_id, vault_config, principal);
            &&& found is Some
            &&& found->0.user == principal
            &&& found->0.max_amount == max_amount
            &&& found->0.vault_config == vault_config
        }),
{
    let (address, bump) = entry_identity(program_id, vault_config, principal)->0;
    let account = EntryAccount {
        address,
        entry: WhitelistEntryPda { user: principal, max_amount, vault_config, bump },
    };
    lemma_item_of_push(accounts, account, address);
}

/// Right after a successful destruction the principal is not authorized.
pub proof fn law_unauthorized_after_destroy(
    accounts: Seq<EntryAccount>,
    program_id: Address,
    vault_config: Address,
    principal: Address,
)
    requires
        destroy_outcome(accounts, program_id, vault_config, principal) is Ok,
    ensures
        record_of(
            destroy_outcome(accounts, program_id, vault_config, principal)->Ok_0,
            program_id,
            vault_config,
            principal,
        ) is None,
{
    let (address, _) = entry_identity(program_id, vault_config, principal)->0;
    lemma_without_key(accounts, address);
}

/// A principal whose record was created with a ceiling is allowed exactly
/// the amounts within that ceiling, and denied the others for exceeding it.
pub proof fn law_created_then_decided(
    accounts: Seq<EntryAccount>,
    program_id: Address,
    vault_config: Address,
    principal: Address,
    max_amount: u64,
    amount: u64,
)
    requires
        create_outcome(accounts, program_id, vault_config, principal, max_amount) is Ok,
    ensures
        decide(
            ceiling_among(
                create_outcome(accounts, program_id, vault_config, principal, max_amount)->Ok_0,
                program_id,
                vault_config,
                principal,
            ),
            amount,
        ) == (if within_limit(max_amount, amount) {
            Decision::Allow
        } else {
            Decision::Deny(DenyReason::AmountExceedsLimit)
        }),
{
    law_authorized_after_create(accounts, program_id, vault_config, principal, max_amount);
}

/// A principal whose record was destroyed is denied every amount as not
/// whitelisted.
pub proof fn law_destroyed_then_denied(
    accounts: Seq<EntryAccount>,
    program_id: Address,
    vault_config: Address,
    principal: Address,
    amount: u64,
)
    requires
        destroy_outcome(accounts, program_id, vault_config, principal) is Ok,
    ensures
        decide(
            ceiling_among(
                destroy_outcome(accounts, program_id, vault_config, principal)->Ok_0,
                program_id,
                vault_config,
                principal,
            ),
            amount,
        ) == Decision::Deny(DenyReason::NotWhitelisted),
{
    law_unauthorized_after_destroy(accounts, program_id, vault_config, principal);
}

/// Two principals whose records live at different addresses, both free,
/// can both be whitelisted: the second creation succeeds after the first,
/// and leaves the first principal's record as it was.
pub proof fn law_distinct_addresses_coexist(
    accounts: Seq<EntryAccount>,
    program_id: Address,
    vault_config: Address,
    first: Address,
    first_max: u64,
    second: Address,
    second_max: u64,
)
    requires
        entry_identity(program_id, vault_config, first) is Some,
        entry_identity(program_id, vault_config, second) is Some,
        address_of(program_id, vault_config, first) != address_of(
            program_id,
            vault_config,
            second,
        ),
        !has_key(accounts, address_of(program_id, vault_config, first)),
        !has_key(accounts, address_of(program_id, vault_config, second)),
    ensures
        create_outcome(accounts, program_id, vault_config, first, first_max) is Ok,
        ({
            let one = create_outcome(accounts, program_id, vault_config, first, first_max)->Ok_0;
            let both = create_outcome(one, program_id, vault_config, second, second_max);
            &&& both is Ok
            &&& record_of(both->Ok_0, program_id, vault_config, first) == record_of(
                one,
                program_id,
                vault_config,
                first,
            )
            &&& record_of(both->Ok_0, program_id, vault_config, first) is Some
            &&& record_of(both->Ok_0, program_id, vault_config, second) is Some
        }),
{
    let second_address = address_of(program_id, vault_config, second);
    let one = create_outcome(accounts, program_id, vault_config, first, first_max)->Ok_0;
    lemma_item_of_push(accounts, one.last(), second_address);
    lemma_create_effect(accounts, program_id, vault_config, first, first_max);
    lemma_create_effect(one, program_id, vault_config, second, second_max);
}

/// The address at which the record of `principal` lives, where one can be
/// derived.
pub open spec fn address_of(program_id: Address, vault_config: Address, principal: Address) -> Address {
    match entry_identity(program_id, vault_config, principal) {
        Some((address, _)) => address,
        None => principal,
    }
}

/// Creating or destroying the record of one principal leaves every other
/// principal's record as it was.
pub proof fn law_others_untouched(
    accounts: Seq<EntryAccount>,
    program_id: Address,
    vault_config: Address,
    op: EntryOp,
    other: Address,
)
    requires
        match op {
            EntryOp::Create { user, .. } => user != other,
            EntryOp::Destroy { user } => user != other,
        },
    ensures
        record_of(apply(accounts, program_id, vault_config, op), program_id, vault_config, other)
            == record_of(accounts, program_id, vault_config, other),
{
    match entry_identity(program_id, vault_config, other) {
        None => {},
        Some((other_address, _)) => {
            match op {
                EntryOp::Create { user, max_amount } => {
                    match entry_identity(program_id, vault_config, user) {
                        Some((address, bump)) => {
                            let account = EntryAccount {
                                address,
                                entry: WhitelistEntryPda { user, max_amount, vault_config, bump },
                            };
                            lemma_item_of_push(accounts, account, other_address);
                        },
                        None => {},
                    }
                },
                EntryOp::Destroy { user } => {
                    match entry_identity(program_id, vault_config, user) {
                        Some((address, _)) => {
                            lemma_without_key(accounts, address);
                        },
                        None => {},
                    }
                },
            }
        },
    }
}

} // verus!
