//! Reasons for which an operation of the hook vault fails.

use vstd::prelude::*;

verus! {

#[derive(Clone, Copy, Debug, PartialEq, Eq, Structural)]
pub enum VaultError {
    /// The signer is not the vault's authority.
    UnauthorizedAuthority,
    /// The denomination is not the vault's.
    InvalidMint,
    /// The aggregate whitelist is at capacity.
    WhitelistFull,
    /// The principal is already on the whitelist.
    AlreadyWhitelisted,
    /// The principal is not on the whitelist.
    NotWhitelisted,
    /// The amount is above the principal's ceiling.
    AmountExceedsLimit,
    /// The transfer hook refused the transfer.
    TransferHookValidationFailed,
    /// The requested extensions give no fixed account size.
    InvalidExtension,
    /// A record already occupies the derived identity.
    AlreadyExists,
    /// No whitelist entry or record is there for the principal.
    NotFound,
    /// The record at the derived identity names another principal.
    PrincipalMismatch,
    /// No usable address can be derived for the account.
    IdentityUnavailable,
}

impl VaultError {
    /// The message shown for this error.
    pub fn message(&self) -> (m: &'static str)
        ensures
            m@ == self.message_text(),
    {
        match self {
            VaultError::UnauthorizedAuthority => "Not authorized",
            VaultError::InvalidMint => "Invalid mint",
            VaultError::WhitelistFull => "Whitelist full",
            VaultError::AlreadyWhitelisted => "User already whitelisted",
            VaultError::NotWhitelisted => "User not whitelisted",
            VaultError::AmountExceedsLimit => "Amount exceeds limit",
            VaultError::TransferHookValidationFailed => "Transfer hook validation failed",
            VaultError::InvalidExtension => "Invalid extension",
            VaultError::AlreadyExists => "Whitelist entry already exists",
            VaultError::NotFound => "Whitelist entry not found",
            VaultError::PrincipalMismatch => "Whitelist entry is for another user",
            VaultError::IdentityUnavailable => "No address can be derived",
        }
    }

    /// The text of the message for this error.
    pub open spec fn message_text(&self) -> Seq<char> {
        match self {
            VaultError::UnauthorizedAuthority => "Not authorized"@,
            VaultError::InvalidMint => "Invalid mint"@,
            VaultError::WhitelistFull => "Whitelist full"@,
            VaultError::AlreadyWhitelisted => "User already whitelisted"@,
            VaultError::NotWhitelisted => "User not whitelisted"@,
            VaultError::AmountExceedsLimit => "Amount exceeds limit"@,
            VaultError::TransferHookValidationFailed => "Transfer hook validation failed"@,
            VaultError::InvalidExtension => "Invalid extension"@,
            VaultError::AlreadyExists => "Whitelist entry already exists"@,
            VaultError::NotFound => "Whitelist entry not found"@,
            VaultError::PrincipalMismatch => "Whitelist entry is for another user"@,
            VaultError::IdentityUnavailable => "No address can be derived"@,
        }
    }
}

} // verus!
