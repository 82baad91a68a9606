//! The vault that keeps its whitelist in one bounded list and enforces it
//! on every transfer of its denomination through a transfer hook.

pub mod constants;
pub mod error;
pub mod instructions;
pub mod state;
pub mod whitelist_laws;

pub use instructions::add_to_whitelist::handler as add_to_whitelist;
pub use instructions::create_mint::handler as create_mint;
pub use instructions::deposit::handler as deposit;
pub use instructions::initialize::handler as initialize;
pub use instructions::initialize_extra_metas::handler as initialize_extra_metas;
pub use instructions::mint_tokens::handler as mint_tokens;
pub use instructions::pda_whitelist_add::handler as pda_whitelist_add;
pub use instructions::pda_whitelist_check::handler as pda_whitelist_check;
pub use instructions::pda_whitelist_remove::handler as pda_whitelist_remove;
pub use instructions::remove_from_whitelist::handler as remove_from_whitelist;
pub use instructions::transfer_hook::handler as transfer_hook;
pub use instructions::withdraw::handler as withdraw;
