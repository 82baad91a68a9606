//! The operations of the per-principal vault, one module each.

pub mod add_to_whitelist;
pub mod create_mint;
pub mod deposit;
pub mod initialize;
pub mod remove_from_whitelist;
pub mod withdraw;
