//! The vault that keeps one whitelist record per principal, each at the
//! address derived from the vault and the principal.

pub mod constants;
pub mod error;
pub mod instructions;
pub mod state;

pub use instructions::add_to_whitelist::handler as add_to_whitelist;
pub use instructions::create_mint::handler as create_mint;
pub use instructions::deposit::handler as deposit;
pub use instructions::initialize::handler as initialize;
pub use instructions::remove_from_whitelist::handler as remove_from_whitelist;
pub use instructions::withdraw::handler as withdraw;
