//! Planning the creation of a mint.

use anchor_lang::prelude::Pubkey;
use anchor_spl::token_2022::spl_token_2022::extension::ExtensionType;
use anchor_spl::token_2022::spl_token_2022::state::Mint;
use whitelist_vault::address::Address;
use whitelist_vault::mint_setup::{MintExtension, MintStep};
use whitelist_vault::pda_token_vault::instructions::create_mint::{
    plan, requested_extensions, CreateMint, ExtensionArgs,
};
use whitelist_vault::transfer_hook_vault::instructions::create_mint::CreateMint as HookCreateMint;

fn fresh() -> Address {
    Address::new_from_array(Pubkey::new_unique().to_bytes())
}

fn len_of(extensions: &[ExtensionType]) -> usize {
    ExtensionType::try_calculate_account_len::<Mint>(extensions).unwrap()
}

fn args(fee: bool, delegate: bool) -> ExtensionArgs {
    ExtensionArgs {
        enable_transfer_fee: fee,
        transfer_fee_basis_points: 250,
        max_fee: 9_000,
        enable_permanent_delegate: delegate,
    }
}

#[test]
fn requested_extensions_follow_the_switches() {
    assert_eq!(requested_extensions(&args(false, false)), vec![]);
    assert_eq!(requested_extensions(&args(true, false)), vec![MintExtension::TransferFeeConfig]);
    assert_eq!(requested_extensions(&args(false, true)), vec![MintExtension::PermanentDelegate]);
    assert_eq!(
        requested_extensions(&args(true, true)),
        vec![MintExtension::TransferFeeConfig, MintExtension::PermanentDelegate]
    );
}

#[test]
fn a_plain_mint_takes_the_base_length() {
    let ctx = CreateMint { authority: fresh(), mint: fresh() };
    let steps = whitelist_vault::pda_token_vault::create_mint(&ctx, 6, args(false, false)).unwrap();
    assert_eq!(
        steps,
        vec![
            MintStep::CreateAccount { payer: ctx.authority, mint: ctx.mint, space: len_of(&[]) },
            MintStep::InitializeMint {
                mint: ctx.mint,
                mint_authority: ctx.authority,
                freeze_authority: ctx.authority,
                decimals: 6,
            },
        ]
    );
    assert_eq!(len_of(&[]), 82);
}

#[test]
fn every_extension_comes_between_the_account_and_the_mint() {
    let ctx = CreateMint { authority: fresh(), mint: fresh() };
    let steps = whitelist_vault::pda_token_vault::create_mint(&ctx, 9, args(true, true)).unwrap();
    let space = len_of(&[ExtensionType::TransferFeeConfig, ExtensionType::PermanentDelegate]);
    assert_eq!(
        steps,
        vec![
            MintStep::CreateAccount { payer: ctx.authority, mint: ctx.mint, space },
            MintStep::InitializeTransferFee {
                mint: ctx.mint,
                config_authority: ctx.authority,
                withdraw_authority: ctx.authority,
                basis_points: 250,
                max_fee: 9_000,
            },
            MintStep::InitializePermanentDelegate { mint: ctx.mint, delegate: ctx.authority },
            MintStep::InitializeMint {
                mint: ctx.mint,
                mint_authority: ctx.authority,
                freeze_authority: ctx.authority,
                decimals: 9,
            },
        ]
    );
    assert!(space > len_of(&[ExtensionType::TransferFeeConfig]));
    assert!(space > len_of(&[ExtensionType::PermanentDelegate]));
}

#[test]
fn the_account_length_follows_the_requested_extensions() {
    let ctx = CreateMint { authority: fresh(), mint: fresh() };
    for (fee, delegate, extensions) in [
        (true, false, vec![ExtensionType::TransferFeeConfig]),
        (false, true, vec![ExtensionType::PermanentDelegate]),
    ] {
        let steps =
            whitelist_vault::pda_token_vault::create_mint(&ctx, 0, args(fee, delegate)).unwrap();
        assert_eq!(steps.len(), 3);
        assert_eq!(
            steps[0],
            MintStep::CreateAccount {
                payer: ctx.authority,
                mint: ctx.mint,
                space: len_of(&extensions),
            }
        );
    }
}

#[test]
fn a_plan_is_laid_out_for_the_space_given() {
    let ctx = CreateMint { authority: fresh(), mint: fresh() };
    let steps = plan(&ctx, 3, &args(false, true), 1234);
    assert_eq!(
        steps,
        vec![
            MintStep::CreateAccount { payer: ctx.authority, mint: ctx.mint, space: 1234 },
            MintStep::InitializePermanentDelegate { mint: ctx.mint, delegate: ctx.authority },
            MintStep::InitializeMint {
                mint: ctx.mint,
                mint_authority: ctx.authority,
                freeze_authority: ctx.authority,
                decimals: 3,
            },
        ]
    );
}

#[test]
fn the_hook_vaults_mint_registers_the_hook() {
    let program = fresh();
    let ctx = HookCreateMint { authority: fresh(), mint: fresh() };
    let steps = whitelist_vault::transfer_hook_vault::create_mint(&ctx, &program, 9).unwrap();
    assert_eq!(
        steps,
        vec![
            MintStep::CreateAccount {
                payer: ctx.authority,
                mint: ctx.mint,
                space: len_of(&[ExtensionType::TransferHook]),
            },
            MintStep::InitializeTransferHook {
                mint: ctx.mint,
                authority: ctx.authority,
                hook_program: program,
            },
            MintStep::InitializeMint {
                mint: ctx.mint,
                mint_authority: ctx.authority,
                freeze_authority: ctx.authority,
                decimals: 9,
            },
        ]
    );
    assert_ne!(len_of(&[ExtensionType::TransferHook]), len_of(&[]));
}
