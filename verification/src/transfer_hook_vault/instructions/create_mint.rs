//! Creating the vault's denomination with the transfer hook registered.

use vstd::prelude::*;
use crate::address::Address;
use crate::mint_setup::{mint_account_len, try_calculate_account_len, MintExtension, MintStep};
use crate::transfer_hook_vault::error::VaultError;

verus! {

/// The accounts of a mint creation.
#[derive(Clone, Copy, Debug, PartialEq, Eq)]
pub struct CreateMint {
    /// Pays for the mint and becomes its mint, freeze and hook authority.
    pub authority: Address,
    /// The account that becomes the mint.
    pub mint: Address,
}

/// The extensions of the vault's denomination: the transfer hook alone.
pub open spec fn extensions() -> Seq<MintExtension> {
    seq![MintExtension::TransferHook]
}

/// The steps that create the mint in an account of `space` bytes and
/// register `hook_program` as its transfer hook.
pub open spec fn mint_steps(ctx: CreateMint, hook_program: Address, decimals: u8, space: usize) -> Seq<
    MintStep,
> {
    seq![
        MintStep::CreateAccount { payer: ctx.authority, mint: ctx.mint, space },
        MintStep::InitializeTransferHook {
            mint: ctx.mint,
            authority: ctx.authority,
            hook_program,
        },
        MintStep::InitializeMint {
            mint: ctx.mint,
            mint_authority: ctx.authority,
            freeze_authority: ctx.authority,
            decimals,
        },
    ]
}

/// Lays out the steps for an account of `space` bytes.
pub fn plan(ctx: &CreateMint, hook_program: &Address, decimals: u8, space: usize) -> (steps: Vec<
    MintStep,
>)
    ensures
        steps@ == mint_steps(*ctx, *hook_program, decimals, space),
{
    let mut steps: Vec<MintStep> = Vec::new();
    steps.push(MintStep::CreateAccount { payer: ctx.authority, mint: ctx.mint, space });
    steps.push(
        MintStep::InitializeTransferHook {
            mint: ctx.mint,
            authority: ctx.authority,
            hook_program: *hook_program,
        },
    );
    steps.push(
        MintStep::InitializeMint {
            mint: ctx.mint,
            mint_authority: ctx.authority,
            freeze_authority: ctx.authority,
            decimals,
        },
    );
    assert(steps@ =~= mint_steps(*ctx, *hook_program, decimals, space));
    steps
}

/// Plans the creation of the vault's denomination with `decimals`
/// decimals, hooked to the program `program_id`.
///
/// Fails with `InvalidExtension` where the token program gives no account
/// length for the extensions.
pub fn handler(ctx: &CreateMint, program_id: &Address, decimals: u8) -> (r: Result<
    Vec<MintStep>,
    VaultError,
>)
    ensures
        match mint_account_len(extensions()) {
            Some(space) => r is Ok && r->Ok_0@ == mint_steps(*ctx, *program_id, decimals, space),
            None => r == Err::<Vec<MintStep>, VaultError>(VaultError::InvalidExtension),
        },
{
    let mut wanted: Vec<MintExtension> = Vec::new();
    wanted.push(MintExtension::TransferHook);
    assert(wanted@ =~= extensions());
    match try_calculate_account_len(&wanted) {
        Ok(space) => Ok(plan(ctx, program_id, decimals, space)),
        Err(_) => Err(VaultError::InvalidExtension),
    }
}

} // verus!
