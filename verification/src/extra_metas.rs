//! The extra accounts that the transfer hook asks the token program to
//! pass along with every transfer, each described by the seeds from which
//! its address is derived.
//!
//! A description fits in 32 bytes: its seeds, packed one after the other,
//! then zeroes. A literal seed takes two bytes and its own length, the key
//! of an account of the transfer takes two bytes.

use vstd::prelude::*;
use anchor_lang::prelude::ProgramError;
use spl_tlv_account_resolution::account::ExtraAccountMeta;
use spl_tlv_account_resolution::seeds::Seed;

verus! {

/// Bytes available to the packed seeds of one account.
pub const ADDRESS_CONFIG_BYTES: usize = 32;

/// Longest literal that the packing can take the length of.
pub const MAX_LITERAL_BYTES: usize = 253;

/// One seed of an extra account's address.
#[derive(Clone, Debug, PartialEq, Eq)]
pub enum SeedConfig {
    /// The given bytes.
    Literal { bytes: Vec<u8> },
    /// The key of the account at `index` in the transfer's account list.
    AccountKey { index: u8 },
}

/// An extra account, as it is written into the hook's metadata account.
#[derive(Clone, Copy, Debug, PartialEq, Eq)]
pub struct ExtraMeta {
    /// 1 for an account whose address is derived from seeds.
    pub discriminator: u8,
    pub address_config: [u8; 32],
    pub is_signer: bool,
    pub is_writable: bool,
}

/// A seed as a value: what a [`SeedConfig`] stands for.
pub enum SeedSpec {
    Literal { bytes: Seq<u8> },
    AccountKey { index: u8 },
}

impl DeepView for SeedConfig {
    type V = SeedSpec;

    open spec fn deep_view(&self) -> SeedSpec {
        match self {
            SeedConfig::Literal { bytes } => SeedSpec::Literal { bytes: bytes@ },
            SeedConfig::AccountKey { index } => SeedSpec::AccountKey { index: *index },
        }
    }
}

impl SeedSpec {
    /// The packed form of the seed.
    pub open spec fn packed(self) -> Seq<u8> {
        match self {
            SeedSpec::Literal { bytes } => seq![1u8, bytes.len() as u8] + bytes,
            SeedSpec::AccountKey { index } => seq![3u8, index],
        }
    }

    /// Whether the packing can take the seed at all.
    pub open spec fn packable(self) -> bool {
        match self {
            SeedSpec::Literal { bytes } => bytes.len() <= MAX_LITERAL_BYTES,
            SeedSpec::AccountKey { .. } => true,
        }
    }
}

/// The seeds packed one after the other.
pub open spec fn packed_seeds(seeds: Seq<SeedSpec>) -> Seq<u8>
    decreases seeds.len(),
{
    if seeds.len() == 0 {
        Seq::empty()
    } else {
        packed_seeds(seeds.drop_last()) + seeds.last().packed()
    }
}

/// The 32 bytes that describe an account with the given seeds, where they
/// fit: the packed seeds, then zeroes.
pub open spec fn address_config(seeds: Seq<SeedSpec>) -> Seq<u8> {
    packed_seeds(seeds) + Seq::new(
        (ADDRESS_CONFIG_BYTES - packed_seeds(seeds).len()) as nat,
        |i: int| 0u8,
    )
}

/// The description of the account derived from `seeds`, or `None` where
/// the packed seeds take more than 32 bytes.
pub open spec fn meta_with_seeds(seeds: Seq<SeedSpec>) -> Option<
    Seq<u8>,
> {
    if packed_seeds(seeds).len() <= ADDRESS_CONFIG_BYTES {
        Some(address_config(seeds))
    } else {
        None
    }
}

/// Runs `ExtraAccountMeta::new_with_seeds` on the seeds.
///
/// Trusted: where the packed seeds fit in 32 bytes, the result is the
/// description with discriminator 1, the packed seeds followed by zeroes,
/// and the two flags as given; where they do not fit, it is an error. A
/// literal of more than 253 bytes is left out: the packing cannot take
/// its length.
#[verifier::external_body]
fn new_with_seeds(seeds: &Vec<SeedConfig>, is_signer: bool, is_writable: bool) -> (r: Result<
    ExtraMeta,
    ProgramError,
>)
    requires
        forall|i: int|
            0 <= i < seeds.deep_view().len() ==> (#[trigger] seeds.deep_view()[i]).packable(),
    ensures
        match r {
            Ok(meta) => {
                &&& packed_seeds(seeds.deep_view()).len() <= ADDRESS_CONFIG_BYTES
                &&& meta.discriminator == 1
                &&& meta.address_config@ == address_config(seeds.deep_view())
                &&& meta.is_signer == is_signer
                &&& meta.is_writable == is_writable
            },
            Err(_) => packed_seeds(seeds.deep_view()).len() > ADDRESS_CONFIG_BYTES,
        },
{
    let configs: Vec<Seed> = seeds.iter().map(
        |s| match s {
            SeedConfig::Literal { bytes } => Seed::Literal { bytes: bytes.clone() },
            SeedConfig::AccountKey { index } => Seed::AccountKey { index: *index },
        },
    ).collect();
    let meta = ExtraAccountMeta::new_with_seeds(&configs, is_signer, is_writable)?;
    let (discriminator, address_config) = (meta.discriminator, meta.address_config);
    let (is_signer, is_writable) = (meta.is_signer.into(), meta.is_writable.into());
    Ok(ExtraMeta { discriminator, address_config, is_signer, is_writable })
}

/// Whether every seed can be packed.
fn all_packable(seeds: &Vec<SeedConfig>) -> (ok: bool)
    ensures
        ok == forall|i: int|
            0 <= i < seeds.deep_view().len() ==> (#[trigger] seeds.deep_view()[i]).packable(),
{
    let mut i: usize = 0;
    while i < seeds.len()
        invariant
            i <= seeds@.len(),
            seeds.deep_view().len() == seeds@.len(),
            forall|j: int| 0 <= j < i ==> (#[trigger] seeds.deep_view()[j]).packable(),
        decreases seeds.len() - i,
    {
        assert(seeds.deep_view()[i as int] == seeds@[i as int].deep_view());
        match &seeds[i] {
            SeedConfig::Literal { bytes } => {
                if bytes.len() > MAX_LITERAL_BYTES {
                    assert(!seeds.deep_view()[i as int].packable());
                    return false;
                }
            },
            SeedConfig::AccountKey { .. } => {},
        }
        i = i + 1;
    }
    true
}

/// A seed that cannot be packed makes the packed seeds too long.
pub proof fn lemma_unpackable_too_long(seeds: Seq<SeedSpec>, i: int)
    requires
        0 <= i < seeds.len(),
        !seeds[i].packable(),
    ensures
        packed_seeds(seeds).len() > ADDRESS_CONFIG_BYTES,
    decreases seeds.len(),
{
    if i == seeds.len() - 1 {
        assert(seeds.last().packed().len() > 32);
    } else {
        assert(seeds.drop_last()[i] == seeds[i]);
        lemma_unpackable_too_long(seeds.drop_last(), i);
    }
}

/// Describes the account whose address is derived from `seeds`.
///
/// Returns `None` where the packed seeds take more than 32 bytes.
pub fn extra_meta_with_seeds(seeds: &Vec<SeedConfig>, is_signer: bool, is_writable: bool) -> (r:
    Option<ExtraMeta>)
    ensures
        match r {
            Some(meta) => {
                &&& meta_with_seeds(seeds.deep_view()) == Some(meta.address_config@)
                &&& meta.discriminator == 1
                &&& meta.is_signer == is_signer
                &&& meta.is_writable == is_writable
            },
            None => meta_with_seeds(seeds.deep_view()) is None,
        },
{
    if !all_packable(seeds) {
        proof {
            let views = seeds.deep_view();
            let i = choose|i: int| 0 <= i < views.len() && !(#[trigger] views[i]).packable();
            lemma_unpackable_too_long(views, i);
        }
        return None;
    }
    match new_with_seeds(seeds, is_signer, is_writable) {
        Ok(meta) => Some(meta),
        Err(_) => None,
    }
}

} // verus!
