//! The authorization predicate over both ways of keeping a whitelist.

use anchor_lang::prelude::Pubkey;
use whitelist_vault::address::Address;
use whitelist_vault::authorization::{authorize, is_within_limit, Decision, DenyReason};
use whitelist_vault::pda_whitelist::PdaWhitelist;
use whitelist_vault::transfer_hook_vault::state::Whitelist;

fn fresh() -> Address {
    Address::new_from_array(Pubkey::new_unique().to_bytes())
}

#[test]
fn ceiling_is_an_inclusive_bound() {
    assert!(is_within_limit(1_000, 999));
    assert!(is_within_limit(1_000, 1_000));
    assert!(!is_within_limit(1_000, 1_001));
    assert!(is_within_limit(u64::MAX, u64::MAX));
    assert!(is_within_limit(1, 0));
    assert!(!is_within_limit(1, 2));
}

#[test]
fn zero_ceiling_is_no_limit() {
    assert!(is_within_limit(0, 0));
    assert!(is_within_limit(0, 1));
    assert!(is_within_limit(0, u64::MAX));
}

#[test]
fn aggregate_store_decides_by_membership_and_ceiling() {
    let mut whitelist = Whitelist::new(fresh());
    let limited = fresh();
    let unlimited = fresh();
    let stranger = fresh();
    whitelist.add_entry(limited, 1_000_000_000).unwrap();
    whitelist.add_entry(unlimited, 0).unwrap();

    assert_eq!(authorize(&whitelist, &limited, 1_000_000_000), Decision::Allow);
    assert_eq!(
        authorize(&whitelist, &limited, 1_000_000_001),
        Decision::Deny(DenyReason::AmountExceedsLimit)
    );
    assert_eq!(authorize(&whitelist, &unlimited, u64::MAX), Decision::Allow);
    assert_eq!(
        authorize(&whitelist, &stranger, 0),
        Decision::Deny(DenyReason::NotWhitelisted)
    );
}

#[test]
fn per_principal_store_decides_by_membership_and_ceiling() {
    let mut whitelist = PdaWhitelist::new(fresh(), fresh());
    let limited = fresh();
    let unlimited = fresh();
    let stranger = fresh();
    whitelist.create(limited, 1_000_000_000).unwrap();
    whitelist.create(unlimited, 0).unwrap();

    assert_eq!(authorize(&whitelist, &limited, 1_000_000_000), Decision::Allow);
    assert_eq!(
        authorize(&whitelist, &limited, 1_000_000_001),
        Decision::Deny(DenyReason::AmountExceedsLimit)
    );
    assert_eq!(authorize(&whitelist, &unlimited, u64::MAX), Decision::Allow);
    assert_eq!(
        authorize(&whitelist, &stranger, 0),
        Decision::Deny(DenyReason::NotWhitelisted)
    );
}

#[test]
fn the_ceiling_keeps_no_running_total() {
    let mut whitelist = Whitelist::new(fresh());
    let user = fresh();
    whitelist.add_entry(user, 600).unwrap();
    for _ in 0..5 {
        assert_eq!(authorize(&whitelist, &user, 600), Decision::Allow);
    }
    assert_eq!(whitelist.entries.len(), 1);
    assert_eq!(whitelist.get_entry(&user).unwrap().max_amount, 600);
}

#[test]
fn both_stores_agree_on_every_decision() {
    let mut aggregate = Whitelist::new(fresh());
    let mut records = PdaWhitelist::new(fresh(), fresh());
    let users: Vec<Address> = (0..6).map(|_| fresh()).collect();
    for (i, user) in users.iter().enumerate().take(4) {
        let ceiling = (i as u64) * 100;
        aggregate.add_entry(*user, ceiling).unwrap();
        records.create(*user, ceiling).unwrap();
    }
    for user in &users {
        for amount in [0u64, 1, 100, 101, 200, 300, 301, u64::MAX] {
            assert_eq!(authorize(&aggregate, user, amount), authorize(&records, user, amount));
        }
    }
}
