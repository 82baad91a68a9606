//! Setting up a denomination: which extensions a mint carries, how large
//! its account must be, and the steps that create and initialize it.
//!
//! The steps are carried out by the system and token programs; the library
//! only decides them and their order.

use vstd::prelude::*;
use anchor_lang::prelude::ProgramError;
use anchor_spl::token_2022::spl_token_2022::extension::ExtensionType;
use anchor_spl::token_2022::spl_token_2022::state::Mint;
use crate::address::Address;

verus! {

#[verifier::external_type_specification]
#[verifier::external_body]
pub struct ExProgramError(ProgramError);

/// An optional behaviour that a mint can carry.
#[derive(Clone, Copy, Debug, PartialEq, Eq, Structural)]
pub enum MintExtension {
    /// A proportional fee withheld on every transfer.
    TransferFeeConfig,
    /// A delegate that may move any holder's tokens.
    PermanentDelegate,
    /// A program that is consulted on every transfer.
    TransferHook,
}

/// One step of creating a mint.
#[derive(Clone, Copy, Debug, PartialEq, Eq)]
pub enum MintStep {
    /// Create the mint's account with `space` bytes, paid for by `payer`
    /// and owned by the token program.
    CreateAccount { payer: Address, mint: Address, space: usize },
    /// Set the transfer fee, with its two authorities.
    InitializeTransferFee {
        mint: Address,
        config_authority: Address,
        withdraw_authority: Address,
        basis_points: u16,
        max_fee: u64,
    },
    /// Name the permanent delegate.
    InitializePermanentDelegate { mint: Address, delegate: Address },
    /// Register `hook_program` as the program consulted on every transfer.
    InitializeTransferHook { mint: Address, authority: Address, hook_program: Address },
    /// Initialize the mint itself; this comes after every extension.
    InitializeMint { mint: Address, mint_authority: Address, freeze_authority: Address, decimals: u8 },
}

/// The account length that the token program asks for a mint with the
/// given extensions, or `None` where it gives none.
pub uninterp spec fn mint_account_len(extensions: Seq<MintExtension>) -> Option<usize>;

/// Runs `ExtensionType::try_calculate_account_len::<Mint>` on the
/// extensions.
///
/// Trusted: the answer depends on the list of extensions alone. Which
/// length it is, and for which lists there is none, is not claimed.
#[verifier::external_body]
pub(crate) fn try_calculate_account_len(extensions: &Vec<MintExtension>) -> (r: Result<
    usize,
    ProgramError,
>)
    ensures
        match r {
            Ok(len) => mint_account_len(extensions@) == Some(len),
            Err(_) => mint_account_len(extensions@) is None,
        },
{
    let kinds: Vec<ExtensionType> = extensions.iter().map(
        |e| match e {
            MintExtension::TransferFeeConfig => ExtensionType::TransferFeeConfig,
            MintExtension::PermanentDelegate => ExtensionType::PermanentDelegate,
            MintExtension::TransferHook => ExtensionType::TransferHook,
        },
    ).collect();
    ExtensionType::try_calculate_account_len::<Mint>(&kinds)
}

} // verus!
