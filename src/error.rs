use vstd::prelude::*;

verus! {

/// Why an operation on a vault was refused. A refused operation changes no
/// record.
#[derive(Clone, Copy, Debug, PartialEq, Eq, Structural)]
pub enum ErrorCode {
    /// A zero amount where the operation needs a positive one.
    InvalidAmount,
    /// The partition the amount is taken from holds less than the amount.
    InsufficientBalance,
    /// The signer does not own the vault it acts on.
    Unauthorized,
    /// The destination record belongs to another identity than the one named.
    InvalidRecipientVault,
    /// The destination vault holds another asset than the source vault.
    AssetMismatch,
    /// A balance or counter would exceed the largest `u64`.
    Overflow,
    /// No vault is registered for the identity.
    NotFound,
    /// A vault is already registered for the identity.
    AlreadyExists,
}

impl ErrorCode {
    /// The message that goes with the error.
    pub fn message(&self) -> (r: &'static str) {
        match self {
            ErrorCode::InvalidAmount => "Invalid amount",
            ErrorCode::InsufficientBalance => "Insufficient balance",
            ErrorCode::Unauthorized => "Unauthorized vault access",
            ErrorCode::InvalidRecipientVault => "Recipient vault is invalid or not initialized",
            ErrorCode::AssetMismatch => "Recipient vault holds another asset",
            ErrorCode::Overflow => "Arithmetic overflow",
            ErrorCode::NotFound => "Vault not found",
            ErrorCode::AlreadyExists => "Vault already exists",
        }
    }
}

} // verus!
