//! Role tags and limits of the hook vault.

use vstd::prelude::*;

pub use crate::derivation::{
    EXTRA_METAS_SEED, VAULT_CONFIG_SEED, VAULT_SEED, WHITELIST_ENTRY_SEED, WHITELIST_SEED,
};

verus! {

/// Capacity of the aggregate whitelist, fixed when its account is created.
pub const MAX_WHITELIST_ENTRIES: usize = 100;

} // verus!
