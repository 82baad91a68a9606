//! The operations of the hook vault, one module each.

pub mod add_to_whitelist;
pub mod create_mint;
pub mod deposit;
pub mod initialize;
pub mod initialize_extra_metas;
pub mod mint_tokens;
pub mod pda_whitelist_add;
pub mod pda_whitelist_check;
pub mod pda_whitelist_remove;
pub mod remove_from_whitelist;
pub mod transfer_hook;
pub mod withdraw;
