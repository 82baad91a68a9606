//! Role tags of the per-principal vault.

pub use crate::derivation::{VAULT_CONFIG_SEED, VAULT_SEED, WHITELIST_ENTRY_SEED};
