//! The extra accounts of the transfer hook.

use anchor_lang::prelude::Pubkey;
use spl_tlv_account_resolution::account::ExtraAccountMeta;
use spl_tlv_account_resolution::seeds::Seed;
use whitelist_vault::address::Address;
use whitelist_vault::derivation::derive_extra_metas;
use whitelist_vault::extra_metas::{extra_meta_with_seeds, ExtraMeta, SeedConfig};
use whitelist_vault::transfer_hook_vault::error::VaultError;
use whitelist_vault::transfer_hook_vault::initialize_extra_metas;
use whitelist_vault::transfer_hook_vault::instructions::initialize_extra_metas::{
    whitelist_meta, InitializeExtraMetas,
};
use whitelist_vault::transfer_hook_vault::state::VaultConfig;

fn fresh() -> Address {
    Address::new_from_array(Pubkey::new_unique().to_bytes())
}

fn literal(bytes: &[u8]) -> SeedConfig {
    SeedConfig::Literal { bytes: bytes.to_vec() }
}

#[test]
fn the_whitelist_is_found_by_its_tag_and_the_mint() {
    let meta = whitelist_meta();
    let mut config = [0u8; 32];
    config[0] = 1;
    config[1] = 9;
    config[2..11].copy_from_slice(b"whitelist");
    config[11] = 3;
    config[12] = 1;
    assert_eq!(
        meta,
        ExtraMeta { discriminator: 1, address_config: config, is_signer: false, is_writable: false }
    );
}

#[test]
fn the_description_is_the_one_the_resolution_crate_makes() {
    let theirs = ExtraAccountMeta::new_with_seeds(
        &[Seed::Literal { bytes: b"whitelist".to_vec() }, Seed::AccountKey { index: 1 }],
        false,
        false,
    )
    .unwrap();
    let ours = whitelist_meta();
    assert_eq!(ours.discriminator, theirs.discriminator);
    assert_eq!(ours.address_config, theirs.address_config);
    assert_eq!(ours.is_signer, bool::from(theirs.is_signer));
    assert_eq!(ours.is_writable, bool::from(theirs.is_writable));
}

#[test]
fn the_flags_are_kept() {
    let seeds = vec![SeedConfig::AccountKey { index: 4 }];
    let meta = extra_meta_with_seeds(&seeds, true, false).unwrap();
    assert!(meta.is_signer);
    assert!(!meta.is_writable);
    let meta = extra_meta_with_seeds(&seeds, false, true).unwrap();
    assert!(!meta.is_signer);
    assert!(meta.is_writable);
    let mut config = [0u8; 32];
    config[0] = 3;
    config[1] = 4;
    assert_eq!(meta.address_config, config);
    assert_eq!(meta.discriminator, 1);
}

#[test]
fn seeds_fill_the_description_to_the_last_byte() {
    let seeds = vec![literal(&[7u8; 28]), SeedConfig::AccountKey { index: 2 }];
    let meta = extra_meta_with_seeds(&seeds, false, false).unwrap();
    let mut config = [7u8; 32];
    config[0] = 1;
    config[1] = 28;
    config[30] = 3;
    config[31] = 2;
    assert_eq!(meta.address_config, config);
}

#[test]
fn seeds_beyond_thirty_two_bytes_are_refused() {
    assert_eq!(extra_meta_with_seeds(&vec![literal(&[7u8; 30])], false, false).map(|_| ()), Some(()));
    assert_eq!(extra_meta_with_seeds(&vec![literal(&[7u8; 31])], false, false), None);
    assert_eq!(
        extra_meta_with_seeds(
            &vec![literal(&[7u8; 29]), SeedConfig::AccountKey { index: 2 }],
            false,
            false
        ),
        None
    );
    assert_eq!(extra_meta_with_seeds(&vec![literal(&[7u8; 254])], false, false), None);
    assert_eq!(extra_meta_with_seeds(&vec![literal(&[7u8; 300])], false, false), None);
}

#[test]
fn no_seeds_give_an_empty_description() {
    let meta = extra_meta_with_seeds(&Vec::new(), false, false).unwrap();
    assert_eq!(meta.address_config, [0u8; 32]);
    assert_eq!(meta.discriminator, 1);
}

#[test]
fn the_setup_records_the_bump_and_nothing_else() {
    let program = fresh();
    let authority = fresh();
    let mint = fresh();
    let vault_config = VaultConfig {
        authority,
        mint,
        config_bump: 255,
        vault_bump: 254,
        whitelist_bump: 253,
        extra_metas_bump: 0,
    };
    let mut ctx = InitializeExtraMetas { payer: fresh(), vault_config, authority: fresh(), mint };
    assert_eq!(
        initialize_extra_metas(&mut ctx, &program),
        Err(VaultError::UnauthorizedAuthority)
    );
    assert_eq!(ctx.vault_config, vault_config);

    ctx.authority = authority;
    let set_up = initialize_extra_metas(&mut ctx, &program).unwrap();
    let (address, bump) = derive_extra_metas(&mint, &program).unwrap();
    assert_eq!(set_up.address, address);
    assert_eq!(set_up.metas, vec![whitelist_meta()]);
    assert_eq!(ctx.vault_config, VaultConfig { extra_metas_bump: bump, ..vault_config });
}
