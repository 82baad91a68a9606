//! Custody operations: deposits into and withdrawals from the vault's
//! holding account.
//!
//! The library decides and describes the movement; carrying it out is left
//! to the token program, which checks the amount against the source balance
//! and the denomination's decimals. A refused withdrawal describes no
//! movement at all.

use vstd::prelude::*;
use crate::address::Address;
use crate::authorization::{authorize, decide, Decision, DenyReason, WhitelistStore};
use crate::derivation::{replay_seed_bytes, replay_seeds, Role, VAULT_SEED};

verus! {

/// Who signs for a movement.
#[derive(Clone, Copy, Debug, PartialEq, Eq)]
pub enum TransferAuthority {
    /// The owner of the source account, a signer of the request.
    Owner(Address),
    /// The program itself, signing for the holding account at `vault` with
    /// the inputs the account's address was derived from.
    Vault { vault: Address, mint: Address, bump: u8 },
}

/// A movement of the denomination to be carried out.
#[derive(Clone, Copy, Debug, PartialEq, Eq)]
pub struct TransferOrder {
    pub from: Address,
    pub to: Address,
    pub mint: Address,
    pub authority: TransferAuthority,
    pub amount: u64,
    pub decimals: u8,
}

/// The seeds with which the program signs for the holding account of
/// `mint`: the seeds that the account's address is replayed from, which are
/// the holding tag, the denomination, and the bump.
pub open spec fn vault_signer_seeds(mint: Address, bump: u8) -> Seq<Seq<u8>> {
    replay_seeds(Role::HoldingAccount, seq![mint], bump)
}

/// The signer seeds, spelled out.
pub proof fn lemma_vault_signer_seeds(mint: Address, bump: u8)
    ensures
        vault_signer_seeds(mint, bump) == seq![VAULT_SEED@, mint@, seq![bump]],
{
    assert(vault_signer_seeds(mint, bump) =~= seq![VAULT_SEED@, mint@, seq![bump]]);
}

impl TransferAuthority {
    /// The address that has authority over the source account.
    pub open spec fn address(&self) -> Address {
        match self {
            TransferAuthority::Owner(owner) => *owner,
            TransferAuthority::Vault { vault, .. } => *vault,
        }
    }

    /// The seeds the program signs with: none for an owner, who signs
    /// the request in person.
    pub open spec fn seeds(&self) -> Seq<Seq<u8>> {
        match self {
            TransferAuthority::Owner(_) => Seq::empty(),
            TransferAuthority::Vault { mint, bump, .. } => vault_signer_seeds(*mint, *bump),
        }
    }

    /// The address that has authority over the source account.
    pub fn authority_address(&self) -> (a: Address)
        ensures
            a == self.address(),
    {
        match self {
            TransferAuthority::Owner(owner) => *owner,
            TransferAuthority::Vault { vault, .. } => *vault,
        }
    }

    /// The seeds the program signs with.
    pub fn signer_seeds(&self) -> (seeds: Vec<Vec<u8>>)
        ensures
            seeds.deep_view() == self.seeds(),
    {
        match self {
            TransferAuthority::Owner(_) => {
                let seeds: Vec<Vec<u8>> = Vec::new();
                assert(seeds.deep_view() =~= Seq::<Seq<u8>>::empty());
                seeds
            },
            TransferAuthority::Vault { mint, bump, .. } => {
                let mut parents: Vec<Address> = Vec::new();
                parents.push(*mint);
                assert(parents@ =~= seq![*mint]);
                replay_seed_bytes(Role::HoldingAccount, &parents, *bump)
            },
        }
    }
}

/// The movement that a deposit of `amount` by `depositor` asks for.
pub open spec fn deposit_order(
    depositor: Address,
    source: Address,
    vault: Address,
    mint: Address,
    amount: u64,
    decimals: u8,
) -> TransferOrder {
    TransferOrder {
        from: source,
        to: vault,
        mint,
        authority: TransferAuthority::Owner(depositor),
        amount,
        decimals,
    }
}

/// The movement that an allowed withdrawal of `amount` asks for.
pub open spec fn withdrawal_order(
    vault: Address,
    vault_bump: u8,
    destination: Address,
    mint: Address,
    amount: u64,
    decimals: u8,
) -> TransferOrder {
    TransferOrder {
        from: vault,
        to: destination,
        mint,
        authority: TransferAuthority::Vault { vault, mint, bump: vault_bump },
        amount,
        decimals,
    }
}

/// What a withdrawal of `amount` gives for a principal whose ceiling is
/// `ceiling` (`None`: not whitelisted): the movement, or the reason for
/// which there is none.
pub open spec fn withdrawal_outcome(
    ceiling: Option<u64>,
    vault: Address,
    vault_bump: u8,
    destination: Address,
    mint: Address,
    amount: u64,
    decimals: u8,
) -> Result<TransferOrder, DenyReason> {
    match decide(ceiling, amount) {
        Decision::Allow => Ok(
            withdrawal_order(vault, vault_bump, destination, mint, amount, decimals),
        ),
        Decision::Deny(reason) => Err(reason),
    }
}

/// Describes the deposit of `amount` from the account `source` of
/// `depositor` into the holding account `vault`.
///
/// A deposit is never refused here: the whitelist is not consulted.
pub fn deposit(
    depositor: &Address,
    source: &Address,
    vault: &Address,
    mint: &Address,
    amount: u64,
    decimals: u8,
) -> (order: TransferOrder)
    ensures
        order == deposit_order(*depositor, *source, *vault, *mint, amount, decimals),
{
    TransferOrder {
        from: *source,
        to: *vault,
        mint: *mint,
        authority: TransferAuthority::Owner(*depositor),
        amount,
        decimals,
    }
}

/// Describes the withdrawal of `amount` from the holding account `vault`
/// to `destination`, signed by the program for the holding account.
pub fn withdrawal(
    vault: &Address,
    vault_bump: u8,
    destination: &Address,
    mint: &Address,
    amount: u64,
    decimals: u8,
) -> (order: TransferOrder)
    ensures
        order == withdrawal_order(*vault, vault_bump, *destination, *mint, amount, decimals),
{
    TransferOrder {
        from: *vault,
        to: *destination,
        mint: *mint,
        authority: TransferAuthority::Vault { vault: *vault, mint: *mint, bump: vault_bump },
        amount,
        decimals,
    }
}

/// Decides on the withdrawal of `amount` by `principal` and, where it is
/// allowed, describes the movement from the holding account `vault` to
/// `destination`, signed by the program for the holding account.
pub fn withdraw<S: WhitelistStore>(
    store: &S,
    principal: &Address,
    vault: &Address,
    vault_bump: u8,
    destination: &Address,
    mint: &Address,
    amount: u64,
    decimals: u8,
) -> (r: Result<TransferOrder, DenyReason>)
    ensures
        r == withdrawal_outcome(
            store.ceiling_of(*principal),
            *vault,
            vault_bump,
            *destination,
            *mint,
            amount,
            decimals,
        ),
{
    match authorize(store, principal, amount) {
        Decision::Allow => Ok(withdrawal(vault, vault_bump, destination, mint, amount, decimals)),
        Decision::Deny(reason) => Err(reason),
    }
}

} // verus!
