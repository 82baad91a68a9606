//! The aggregate whitelist: additions, removals, capacity.

use anchor_lang::prelude::Pubkey;
use whitelist_vault::address::Address;
use whitelist_vault::transfer_hook_vault::constants::MAX_WHITELIST_ENTRIES;
use whitelist_vault::transfer_hook_vault::error::VaultError;
use whitelist_vault::transfer_hook_vault::instructions::add_to_whitelist::AddToWhitelist;
use whitelist_vault::transfer_hook_vault::instructions::remove_from_whitelist::RemoveFromWhitelist;
use whitelist_vault::transfer_hook_vault::state::{VaultConfig, Whitelist, WhitelistEntry};
use whitelist_vault::transfer_hook_vault::{add_to_whitelist, remove_from_whitelist};

fn fresh() -> Address {
    Address::new_from_array(Pubkey::new_unique().to_bytes())
}

fn config(authority: Address) -> VaultConfig {
    VaultConfig {
        authority,
        mint: fresh(),
        config_bump: 255,
        vault_bump: 254,
        whitelist_bump: 253,
        extra_metas_bump: 0,
    }
}

#[test]
fn nobody_is_listed_before_any_addition() {
    let whitelist = Whitelist::new(fresh());
    for _ in 0..10 {
        let user = fresh();
        assert!(!whitelist.is_whitelisted(&user));
        assert_eq!(whitelist.get_entry(&user), None);
    }
}

#[test]
fn a_principal_never_added_stays_unlisted() {
    let mut whitelist = Whitelist::new(fresh());
    let outsider = fresh();
    let others: Vec<Address> = (0..8).map(|_| fresh()).collect();
    for user in &others {
        whitelist.add_entry(*user, 5).unwrap();
        assert!(!whitelist.is_whitelisted(&outsider));
    }
    for user in &others {
        whitelist.remove_entry(user).unwrap();
        assert!(!whitelist.is_whitelisted(&outsider));
    }
}

#[test]
fn listed_right_after_add_and_unlisted_right_after_remove() {
    let mut whitelist = Whitelist::new(fresh());
    let user = fresh();
    assert_eq!(whitelist.add_entry(user, 42), Ok(()));
    assert!(whitelist.is_whitelisted(&user));
    assert_eq!(whitelist.get_entry(&user), Some(&WhitelistEntry { user, max_amount: 42 }));
    assert_eq!(whitelist.remove_entry(&user), Ok(()));
    assert!(!whitelist.is_whitelisted(&user));
    assert_eq!(whitelist.get_entry(&user), None);
}

#[test]
fn adding_twice_is_refused_and_changes_nothing() {
    let mut whitelist = Whitelist::new(fresh());
    let user = fresh();
    whitelist.add_entry(user, 42).unwrap();
    assert_eq!(whitelist.add_entry(user, 99), Err(VaultError::AlreadyWhitelisted));
    assert_eq!(whitelist.entries, vec![WhitelistEntry { user, max_amount: 42 }]);
}

#[test]
fn removing_an_unlisted_principal_is_refused() {
    let mut whitelist = Whitelist::new(fresh());
    let user = fresh();
    whitelist.add_entry(user, 42).unwrap();
    assert_eq!(whitelist.remove_entry(&fresh()), Err(VaultError::NotFound));
    assert_eq!(whitelist.entries.len(), 1);
}

#[test]
fn removal_keeps_the_others_in_order() {
    let mut whitelist = Whitelist::new(fresh());
    let users: Vec<Address> = (0..5).map(|_| fresh()).collect();
    for (i, user) in users.iter().enumerate() {
        whitelist.add_entry(*user, i as u64).unwrap();
    }
    whitelist.remove_entry(&users[2]).unwrap();
    let left: Vec<Address> = whitelist.entries.iter().map(|e| e.user).collect();
    assert_eq!(left, vec![users[0], users[1], users[3], users[4]]);
    assert_eq!(whitelist.get_entry(&users[3]).unwrap().max_amount, 3);
}

#[test]
fn the_list_is_full_at_capacity_and_has_room_after_one_removal() {
    let mut whitelist = Whitelist::new(fresh());
    let users: Vec<Address> = (0..MAX_WHITELIST_ENTRIES).map(|_| fresh()).collect();
    for user in &users {
        assert!(whitelist.can_add_entry());
        assert_eq!(whitelist.add_entry(*user, 0), Ok(()));
    }
    assert_eq!(whitelist.entries.len(), MAX_WHITELIST_ENTRIES);
    assert!(!whitelist.can_add_entry());

    let late = fresh();
    assert_eq!(whitelist.add_entry(late, 0), Err(VaultError::WhitelistFull));
    assert_eq!(whitelist.add_entry(users[0], 0), Err(VaultError::WhitelistFull));
    assert_eq!(whitelist.entries.len(), MAX_WHITELIST_ENTRIES);

    assert_eq!(whitelist.remove_entry(&users[17]), Ok(()));
    assert_eq!(whitelist.entries.len(), MAX_WHITELIST_ENTRIES - 1);
    assert!(whitelist.can_add_entry());
    assert_eq!(whitelist.add_entry(late, 0), Ok(()));
    assert!(whitelist.is_whitelisted(&late));
}

#[test]
fn lookup_takes_the_first_of_two_entries() {
    let user = fresh();
    let whitelist = Whitelist {
        authority: fresh(),
        entries: vec![
            WhitelistEntry { user, max_amount: 1 },
            WhitelistEntry { user, max_amount: 2 },
        ],
    };
    assert_eq!(whitelist.get_entry(&user).unwrap().max_amount, 1);
}

#[test]
fn removal_clears_every_entry_of_the_principal() {
    let user = fresh();
    let other = fresh();
    let mut whitelist = Whitelist {
        authority: fresh(),
        entries: vec![
            WhitelistEntry { user, max_amount: 1 },
            WhitelistEntry { user: other, max_amount: 7 },
            WhitelistEntry { user, max_amount: 2 },
        ],
    };
    whitelist.remove_entry(&user).unwrap();
    assert_eq!(whitelist.entries, vec![WhitelistEntry { user: other, max_amount: 7 }]);
}

#[test]
fn whitelist_space_grows_by_forty_bytes_an_entry() {
    assert_eq!(Whitelist::space(0), 44);
    assert_eq!(Whitelist::space(1), 84);
    assert_eq!(Whitelist::space(MAX_WHITELIST_ENTRIES), 4044);
}

#[test]
fn only_the_authority_adds() {
    let authority = fresh();
    let user = fresh();
    let mut ctx = AddToWhitelist {
        authority: fresh(),
        vault_config: config(authority),
        whitelist: Whitelist::new(authority),
    };
    assert_eq!(add_to_whitelist(&mut ctx, user, 10), Err(VaultError::UnauthorizedAuthority));
    assert!(ctx.whitelist.entries.is_empty());

    ctx.authority = authority;
    assert_eq!(add_to_whitelist(&mut ctx, user, 10), Ok(()));
    assert_eq!(ctx.whitelist.entries, vec![WhitelistEntry { user, max_amount: 10 }]);
    assert_eq!(add_to_whitelist(&mut ctx, user, 10), Err(VaultError::AlreadyWhitelisted));
}

#[test]
fn an_intruder_learns_nothing_from_the_error() {
    // The authority check comes first: a stranger is refused as a stranger
    // even where the request would have failed for another reason.
    let authority = fresh();
    let user = fresh();
    let mut whitelist = Whitelist::new(authority);
    whitelist.add_entry(user, 10).unwrap();
    let mut ctx = AddToWhitelist { authority: fresh(), vault_config: config(authority), whitelist };
    assert_eq!(add_to_whitelist(&mut ctx, user, 10), Err(VaultError::UnauthorizedAuthority));
}

#[test]
fn only_the_authority_removes() {
    let authority = fresh();
    let user = fresh();
    let mut whitelist = Whitelist::new(authority);
    whitelist.add_entry(user, 10).unwrap();
    let mut ctx = RemoveFromWhitelist {
        authority: fresh(),
        vault_config: config(authority),
        whitelist,
    };
    assert_eq!(remove_from_whitelist(&mut ctx, user), Err(VaultError::UnauthorizedAuthority));
    assert_eq!(ctx.whitelist.entries.len(), 1);

    ctx.authority = authority;
    assert_eq!(remove_from_whitelist(&mut ctx, user), Ok(()));
    assert!(ctx.whitelist.entries.is_empty());
    assert_eq!(remove_from_whitelist(&mut ctx, user), Err(VaultError::NotFound));
}
