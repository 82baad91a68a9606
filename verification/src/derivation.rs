//! Identity derivation: every account the vault relies on lives at an
//! address computed from a role tag, the identities it belongs to, and the
//! program that owns it. The computation also yields the bump, the
//! disambiguating byte that made the address usable, so that it can be
//! stored and replayed.

use vstd::prelude::*;
use anchor_lang::prelude::Pubkey;
use crate::address::{bytes_to_vec, Address};

verus! {

/// Tag of the vault configuration account: `vault_config`.
pub const VAULT_CONFIG_SEED: [u8; 12] = [118, 97, 117, 108, 116, 95, 99, 111, 110, 102, 105, 103];

/// Tag of the holding account: `vault`.
pub const VAULT_SEED: [u8; 5] = [118, 97, 117, 108, 116];

/// Tag of the aggregate whitelist account: `whitelist`.
pub const WHITELIST_SEED: [u8; 9] = [119, 104, 105, 116, 101, 108, 105, 115, 116];

/// Tag of the interception metadata account: `extra_metas`.
pub const EXTRA_METAS_SEED: [u8; 11] = [101, 120, 116, 114, 97, 95, 109, 101, 116, 97, 115];

/// Tag of a per-principal whitelist record: `whitelist_entry`.
pub const WHITELIST_ENTRY_SEED: [u8; 15] = [
    119, 104, 105, 116, 101, 108, 105, 115, 116, 95, 101, 110, 116, 114, 121,
];

/// What a derived account is for.
#[derive(Clone, Copy, Debug, PartialEq, Eq, Structural)]
pub enum Role {
    VaultConfig,
    HoldingAccount,
    AggregateWhitelist,
    WhitelistEntry,
    InterceptionMetadata,
}

/// The address and bump that the program-address search yields for a list of
/// seeds under a program, or `None` where the search finds no usable bump.
pub uninterp spec fn program_address(seeds: Seq<Seq<u8>>, program_id: Seq<u8>) -> Option<
    ([u8; 32], u8),
>;

/// The address that a list of seeds gives under a program as it stands,
/// with no search, or `None` where it gives no usable address.
pub uninterp spec fn seeded_address(seeds: Seq<Seq<u8>>, program_id: Seq<u8>) -> Option<[u8; 32]>;

/// The bytes of a role's tag.
pub open spec fn role_tag(role: Role) -> Seq<u8> {
    match role {
        Role::VaultConfig => VAULT_CONFIG_SEED@,
        Role::HoldingAccount => VAULT_SEED@,
        Role::AggregateWhitelist => WHITELIST_SEED@,
        Role::WhitelistEntry => WHITELIST_ENTRY_SEED@,
        Role::InterceptionMetadata => EXTRA_METAS_SEED@,
    }
}

/// The seed list of a role under its parents: the tag, then each parent's
/// bytes in order.
pub open spec fn role_seeds(role: Role, parents: Seq<Address>) -> Seq<Seq<u8>> {
    seq![role_tag(role)] + parents.map_values(|a: Address| a@)
}

/// The seed list of a role under its parents with a bump already chosen:
/// the role's seeds, then the bump as a seed of one byte.
pub open spec fn replay_seeds(role: Role, parents: Seq<Address>, bump: u8) -> Seq<Seq<u8>> {
    role_seeds(role, parents).push(seq![bump])
}

/// The identity derived for a role under its parents and a program: the
/// address with its bump, or `None` where no bump yields a usable address.
pub open spec fn derived_identity(role: Role, parents: Seq<Address>, program_id: Address) -> Option<
    (Address, u8),
> {
    match program_address(role_seeds(role, parents), program_id@) {
        Some((bytes, bump)) => Some((Address { bytes }, bump)),
        None => None,
    }
}

/// The address that a role has under its parents and a program with the
/// given bump, or `None` where that bump yields no usable address.
pub open spec fn replayed_identity(
    role: Role,
    parents: Seq<Address>,
    bump: u8,
    program_id: Address,
) -> Option<Address> {
    match seeded_address(replay_seeds(role, parents, bump), program_id@) {
        Some(bytes) => Some(Address { bytes }),
        None => None,
    }
}

/// A search result with the address taken by its bytes.
pub open spec fn found_bytes(found: Option<(Address, u8)>) -> Option<([u8; 32], u8)> {
    match found {
        Some((address, bump)) => Some((address.bytes, bump)),
        None => None,
    }
}

/// An address, where there is one, taken by its bytes.
pub open spec fn address_bytes(found: Option<Address>) -> Option<[u8; 32]> {
    match found {
        Some(address) => Some(address.bytes),
        None => None,
    }
}

/// Runs `Pubkey::try_find_program_address` on the seeds and the program id.
///
/// Trusted: the result is the one value that the search gives for these
/// seeds and this program id, wherever and whenever it runs; and the
/// address it finds is the one that the seeds give with the found bump
/// appended. Nothing is claimed about which address or bump that is.
#[verifier::external_body]
fn try_find_program_address(seeds: &Vec<Vec<u8>>, program_id: &Address) -> (found: Option<
    (Address, u8),
>)
    ensures
        found_bytes(found) == program_address(seeds.deep_view(), program_id@),
        found matches Some((address, bump)) ==> seeded_address(
            seeds.deep_view().push(seq![bump]),
            program_id@,
        ) == Some(address.bytes),
{
    let parts: Vec<&[u8]> = seeds.iter().map(|s| s.as_slice()).collect();
    let id = Pubkey::new_from_array(program_id.bytes);
    match Pubkey::try_find_program_address(&parts, &id) {
        Some((address, bump)) => Some((Address { bytes: address.to_bytes() }, bump)),
        None => None,
    }
}

/// Runs `Pubkey::create_program_address` on the seeds and the program id.
///
/// Trusted: the result is the one value that these seeds and this program
/// id give, wherever and whenever it runs; an error of any kind is
/// reported as `None`.
#[verifier::external_body]
fn create_program_address(seeds: &Vec<Vec<u8>>, program_id: &Address) -> (found: Option<Address>)
    ensures
        address_bytes(found) == seeded_address(seeds.deep_view(), program_id@),
{
    let parts: Vec<&[u8]> = seeds.iter().map(|s| s.as_slice()).collect();
    let id = Pubkey::new_from_array(program_id.bytes);
    match Pubkey::create_program_address(&parts, &id) {
        Ok(address) => Some(Address { bytes: address.to_bytes() }),
        Err(_) => None,
    }
}

/// The tag of a role, as bytes.
pub fn role_tag_bytes(role: Role) -> (v: Vec<u8>)
    ensures
        v@ == role_tag(role),
{
    match role {
        Role::VaultConfig => bytes_to_vec(&VAULT_CONFIG_SEED),
        Role::HoldingAccount => bytes_to_vec(&VAULT_SEED),
        Role::AggregateWhitelist => bytes_to_vec(&WHITELIST_SEED),
        Role::WhitelistEntry => bytes_to_vec(&WHITELIST_ENTRY_SEED),
        Role::InterceptionMetadata => bytes_to_vec(&EXTRA_METAS_SEED),
    }
}

/// The seeds of a role under its parents, as bytes.
pub fn role_seed_bytes(role: Role, parents: &Vec<Address>) -> (seeds: Vec<Vec<u8>>)
    ensures
        seeds.deep_view() == role_seeds(role, parents@),
{
    let mut seeds: Vec<Vec<u8>> = Vec::new();
    seeds.push(role_tag_bytes(role));
    let mut i: usize = 0;
    while i < parents.len()
        invariant
            i <= parents.len(),
            seeds@.len() == i + 1,
            seeds@[0]@ == role_tag(role),
            forall|j: int| 0 <= j < i ==> (#[trigger] seeds@[j + 1])@ == parents@[j]@,
        decreases parents.len() - i,
    {
        seeds.push(parents[i].to_vec());
        i = i + 1;
    }
    proof {
        let want = role_seeds(role, parents@);
        assert(seeds.deep_view().len() == want.len());
        assert forall|k: int| 0 <= k < want.len() implies seeds.deep_view()[k] == want[k] by {
            if k > 0 {
                assert(seeds@[(k - 1) + 1]@ == parents@[k - 1]@);
            }
        }
        assert(seeds.deep_view() =~= want);
    }
    seeds
}

/// The seeds of a role under its parents with `bump` as the last seed, as
/// bytes.
pub fn replay_seed_bytes(role: Role, parents: &Vec<Address>, bump: u8) -> (seeds: Vec<Vec<u8>>)
    ensures
        seeds.deep_view() == replay_seeds(role, parents@, bump),
{
    let mut seeds = role_seed_bytes(role, parents);
    let ghost before = seeds.deep_view();
    let mut last: Vec<u8> = Vec::new();
    last.push(bump);
    assert(last@ =~= seq![bump]);
    seeds.push(last);
    proof {
        let want = replay_seeds(role, parents@, bump);
        assert(seeds.deep_view().len() == want.len());
        assert forall|k: int| 0 <= k < want.len() implies seeds.deep_view()[k] == want[k] by {
            if k < before.len() {
                assert(seeds.deep_view()[k] == before[k]);
            }
        }
        assert(seeds.deep_view() =~= want);
    }
    seeds
}

/// Derives the identity of the account that plays `role` under `parents`
/// for the program `program_id`.
///
/// Returns the address together with its bump, or `None` where no bump
/// yields a usable address. The result depends on the role, the parents and
/// the program alone, and replaying the bump gives the address again.
pub fn derive_identity(role: Role, parents: &Vec<Address>, program_id: &Address) -> (found: Option<
    (Address, u8),
>)
    ensures
        found == derived_identity(role, parents@, *program_id),
        found matches Some((address, bump)) ==> replayed_identity(
            role,
            parents@,
            bump,
            *program_id,
        ) == Some(address),
{
    let seeds = role_seed_bytes(role, parents);
    try_find_program_address(&seeds, program_id)
}

/// Computes the address of the account that plays `role` under `parents`
/// for the program `program_id` from a bump that is already known, without
/// searching.
///
/// Returns `None` where the bump yields no usable address.
pub fn replay_identity(role: Role, parents: &Vec<Address>, bump: u8, program_id: &Address) -> (found:
    Option<Address>)
    ensures
        found == replayed_identity(role, parents@, bump, *program_id),
{
    let seeds = replay_seed_bytes(role, parents, bump);
    create_program_address(&seeds, program_id)
}

/// Identity of the configuration account of the vault for `mint`.
/// Replaying the bump gives the address again.
pub fn derive_vault_config(mint: &Address, program_id: &Address) -> (found: Option<(Address, u8)>)
    ensures
        found == derived_identity(Role::VaultConfig, seq![*mint], *program_id),
        found matches Some((address, bump)) ==> replayed_identity(
            Role::VaultConfig,
            seq![*mint],
            bump,
            *program_id,
        ) == Some(address),
{
    derive_under_one(Role::VaultConfig, mint, program_id)
}

/// Identity of the holding account of the vault for `mint`. Replaying
/// the bump gives the address again.
pub fn derive_vault(mint: &Address, program_id: &Address) -> (found: Option<(Address, u8)>)
    ensures
        found == derived_identity(Role::HoldingAccount, seq![*mint], *program_id),
        found matches Some((address, bump)) ==> replayed_identity(
            Role::HoldingAccount,
            seq![*mint],
            bump,
            *program_id,
        ) == Some(address),
{
    derive_under_one(Role::HoldingAccount, mint, program_id)
}

/// Address of the holding account of the vault for `mint`, from its bump.
pub fn replay_vault(mint: &Address, bump: u8, program_id: &Address) -> (found: Option<Address>)
    ensures
        found == replayed_identity(Role::HoldingAccount, seq![*mint], bump, *program_id),
{
    let mut parents: Vec<Address> = Vec::new();
    parents.push(*mint);
    assert(parents@ =~= seq![*mint]);
    replay_identity(Role::HoldingAccount, &parents, bump, program_id)
}

/// Identity of the aggregate whitelist account of the vault for `mint`.
/// Replaying the bump gives the address again.
pub fn derive_whitelist(mint: &Address, program_id: &Address) -> (found: Option<(Address, u8)>)
    ensures
        found == derived_identity(Role::AggregateWhitelist, seq![*mint], *program_id),
        found matches Some((address, bump)) ==> replayed_identity(
            Role::AggregateWhitelist,
            seq![*mint],
            bump,
            *program_id,
        ) == Some(address),
{
    derive_under_one(Role::AggregateWhitelist, mint, program_id)
}

/// Identity of the interception metadata account for `mint`. Replaying
/// the bump gives the address again.
pub fn derive_extra_metas(mint: &Address, program_id: &Address) -> (found: Option<(Address, u8)>)
    ensures
        found == derived_identity(Role::InterceptionMetadata, seq![*mint], *program_id),
        found matches Some((address, bump)) ==> replayed_identity(
            Role::InterceptionMetadata,
            seq![*mint],
            bump,
            *program_id,
        ) == Some(address),
{
    derive_under_one(Role::InterceptionMetadata, mint, program_id)
}

/// Identity of the whitelist record of `user` in the vault whose
/// configuration account is `vault_config`. Replaying the bump gives the
/// address again.
pub fn derive_whitelist_entry(vault_config: &Address, user: &Address, program_id: &Address) -> (found:
    Option<(Address, u8)>)
    ensures
        found == derived_identity(
            Role::WhitelistEntry,
            seq![*vault_config, *user],
            *program_id,
        ),
        found matches Some((address, bump)) ==> replayed_identity(
            Role::WhitelistEntry,
            seq![*vault_config, *user],
            bump,
            *program_id,
        ) == Some(address),
{
    let mut parents: Vec<Address> = Vec::new();
    parents.push(*vault_config);
    parents.push(*user);
    assert(parents@ =~= seq![*vault_config, *user]);
    derive_identity(Role::WhitelistEntry, &parents, program_id)
}

fn derive_under_one(role: Role, parent: &Address, program_id: &Address) -> (found: Option<
    (Address, u8),
>)
    ensures
        found == derived_identity(role, seq![*parent], *program_id),
        found matches Some((address, bump)) ==> replayed_identity(
            role,
            seq![*parent],
            bump,
            *program_id,
        ) == Some(address),
{
    let mut parents: Vec<Address> = Vec::new();
    parents.push(*parent);
    assert(parents@ =~= seq![*parent]);
    derive_identity(role, &parents, program_id)
}

/// Derivation is a function of its inputs: two derivations for the same
/// role, parents and program yield the same address and the same bump.
pub proof fn law_derivation_deterministic(
    role: Role,
    parents: Seq<Address>,
    program_id: Address,
    first: Option<(Address, u8)>,
    second: Option<(Address, u8)>,
)
    requires
        first == derived_identity(role, parents, program_id),
        second == derived_identity(role, parents, program_id),
    ensures
        first == second,
{
}

} // verus!
