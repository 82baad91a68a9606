//! Whitelist-gated custody vaults: the authorization core of two vault
//! programs, one keeping its whitelist in a single bounded list, the other
//! in one record per principal.
//!
//! The library decides; it moves nothing itself. Every operation takes the
//! accounts it reads as plain values and answers with the new state, the
//! movement to carry out, or the reason for a refusal.

pub mod address;
pub mod authorization;
pub mod custody;
pub mod derivation;
pub mod extra_metas;
pub mod interceptor;
pub mod keyed_list;
pub mod mint_setup;
pub mod pda_token_vault;
pub mod pda_whitelist;
pub mod pda_whitelist_laws;
pub mod transfer_hook_vault;
