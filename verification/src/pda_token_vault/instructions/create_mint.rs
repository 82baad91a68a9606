//! Creating a denomination with the extensions that the caller asks for.

use vstd::prelude::*;
use crate::address::Address;
use crate::mint_setup::{mint_account_len, try_calculate_account_len, MintExtension, MintStep};
use crate::pda_token_vault::error::VaultError;

verus! {

/// Which extensions the new mint carries, and their settings.
#[derive(Clone, Copy, Debug, PartialEq, Eq)]
pub struct ExtensionArgs {
    /// Withhold a fee on every transfer.
    pub enable_transfer_fee: bool,
    /// The fee in basis points (100 = 1%).
    pub transfer_fee_basis_points: u16,
    /// The largest fee withheld on one transfer.
    pub max_fee: u64,
    /// Let the authority move any holder's tokens.
    pub enable_permanent_delegate: bool,
}

impl Default for ExtensionArgs {
    /// No extension, and every setting zero.
    fn default() -> (args: ExtensionArgs)
        ensures
            !args.enable_transfer_fee,
            args.transfer_fee_basis_points == 0,
            args.max_fee == 0,
            !args.enable_permanent_delegate,
    {
        ExtensionArgs {
            enable_transfer_fee: false,
            transfer_fee_basis_points: 0,
            max_fee: 0,
            enable_permanent_delegate: false,
        }
    }
}

/// The accounts of a mint creation.
#[derive(Clone, Copy, Debug, PartialEq, Eq)]
pub struct CreateMint {
    /// Pays for the mint and becomes its mint and freeze authority, the
    /// authority over its fee, and its permanent delegate.
    pub authority: Address,
    /// The account that becomes the mint.
    pub mint: Address,
}

/// The extensions that `args` asks for: the transfer fee first, then the
/// permanent delegate.
pub open spec fn requested(args: ExtensionArgs) -> Seq<MintExtension> {
    let fee = if args.enable_transfer_fee {
        seq![MintExtension::TransferFeeConfig]
    } else {
        Seq::empty()
    };
    let delegate = if args.enable_permanent_delegate {
        seq![MintExtension::PermanentDelegate]
    } else {
        Seq::empty()
    };
    fee + delegate
}

/// The steps that create the mint in an account of `space` bytes: the
/// account, then each requested extension, then the mint itself.
pub open spec fn mint_steps(ctx: CreateMint, decimals: u8, args: ExtensionArgs, space: usize) -> Seq<
    MintStep,
> {
    let fee = if args.enable_transfer_fee {
        seq![
            MintStep::InitializeTransferFee {
                mint: ctx.mint,
                config_authority: ctx.authority,
                withdraw_authority: ctx.authority,
                basis_points: args.transfer_fee_basis_points,
                max_fee: args.max_fee,
            },
        ]
    } else {
        Seq::empty()
    };
    let delegate = if args.enable_permanent_delegate {
        seq![MintStep::InitializePermanentDelegate { mint: ctx.mint, delegate: ctx.authority }]
    } else {
        Seq::empty()
    };
    seq![MintStep::CreateAccount { payer: ctx.authority, mint: ctx.mint, space }] + fee + delegate
        + seq![
        MintStep::InitializeMint {
            mint: ctx.mint,
            mint_authority: ctx.authority,
            freeze_authority: ctx.authority,
            decimals,
        },
    ]
}

/// Lists the extensions that `args` asks for.
pub fn requested_extensions(args: &ExtensionArgs) -> (extensions: Vec<MintExtension>)
    ensures
        extensions@ == requested(*args),
{
    let mut extensions: Vec<MintExtension> = Vec::new();
    if args.enable_transfer_fee {
        extensions.push(MintExtension::TransferFeeConfig);
    }
    if args.enable_permanent_delegate {
        extensions.push(MintExtension::PermanentDelegate);
    }
    assert(extensions@ =~= requested(*args));
    extensions
}

/// Lays out the steps for an account of `space` bytes.
pub fn plan(ctx: &CreateMint, decimals: u8, args: &ExtensionArgs, space: usize) -> (steps: Vec<
    MintStep,
>)
    ensures
        steps@ == mint_steps(*ctx, decimals, *args, space),
{
    let mut steps: Vec<MintStep> = Vec::new();
    steps.push(MintStep::CreateAccount { payer: ctx.authority, mint: ctx.mint, space });
    if args.enable_transfer_fee {
        steps.push(
            MintStep::InitializeTransferFee {
                mint: ctx.mint,
                config_authority: ctx.authority,
                withdraw_authority: ctx.authority,
                basis_points: args.transfer_fee_basis_points,
                max_fee: args.max_fee,
            },
        );
    }
    if args.enable_permanent_delegate {
        steps.push(
            MintStep::InitializePermanentDelegate { mint: ctx.mint, delegate: ctx.authority },
        );
    }
    steps.push(
        MintStep::InitializeMint {
            mint: ctx.mint,
            mint_authority: ctx.authority,
            freeze_authority: ctx.authority,
            decimals,
        },
    );
    assert(steps@ =~= mint_steps(*ctx, decimals, *args, space));
    steps
}

/// Plans the creation of a mint with `decimals` decimals and the
/// extensions that `extension_args` asks for.
///
/// Fails with `InvalidExtension` where the token program gives no account
/// length for these extensions.
pub fn handler(ctx: &CreateMint, decimals: u8, extension_args: ExtensionArgs) -> (r: Result<
    Vec<MintStep>,
    VaultError,
>)
    ensures
        match mint_account_len(requested(extension_args)) {
            Some(space) => r is Ok && r->Ok_0@ == mint_steps(*ctx, decimals, extension_args, space),
            None => r == Err::<Vec<MintStep>, VaultError>(VaultError::InvalidExtension),
        },
{
    let wanted = requested_extensions(&extension_args);
    match try_calculate_account_len(&wanted) {
        Ok(space) => Ok(plan(ctx, decimals, &extension_args, space)),
        Err(_) => Err(VaultError::InvalidExtension),
    }
}

} // verus!
