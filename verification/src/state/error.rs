use vstd::prelude::*;

verus! {

/// The reasons for which the vault's own rules refuse an operation.
#[derive(Clone, Copy, Debug, PartialEq, Eq, Structural)]
pub enum ErrorCode {
    /// The stored vault authority parameter derives no address, or not the
    /// address that was supplied.
    BumpNotFound,
    /// The asset is not on the allowlist, or the allowlist itself has a size
    /// outside its bounds.
    MintNotAllowed,
    /// The invoker is neither the admin nor the authorized caller.
    NotAuthorized,
    /// The source holding is of another asset than the operation.
    SourceMintMismatch,
    /// The recipient holding is of another asset than the operation.
    RecipientMintMismatch,
    /// The vault holding is of another asset than the operation.
    VaultMintMismatch,
    /// The liquidity position holds less than the amount to withdraw.
    InsufficientLiquidity,
}

/// The reasons for which a movement between two holdings fails.
#[derive(Clone, Copy, Debug, PartialEq, Eq, Structural)]
pub enum TransferError {
    /// The paying holding has less than the amount.
    InsufficientFunds,
    /// A holding is of another asset than the one named.
    MintMismatch,
    /// The decimal precision given differs from the asset's own.
    MintDecimalsMismatch,
    /// The receiving holding's balance would exceed 64 bits.
    Overflow,
}

/// Every reason for which an invocation is aborted.
#[derive(Clone, Copy, Debug, PartialEq, Eq, Structural)]
pub enum VaultError {
    /// One of the vault's own rules refused.
    Program(ErrorCode),
    /// The movement of the asset failed.
    Transfer(TransferError),
    /// A field of the relay call is too long for its 32-bit length prefix.
    Serialization,
}

impl ErrorCode {
    /// The text of the message that goes with the reason.
    pub open spec fn message_text(self) -> Seq<char> {
        match self {
            ErrorCode::BumpNotFound => "Bump not found"@,
            ErrorCode::MintNotAllowed => "Mint not in allowed list"@,
            ErrorCode::NotAuthorized => "Not authorized to transfer out"@,
            ErrorCode::SourceMintMismatch => "User source token account mint mismatch"@,
            ErrorCode::RecipientMintMismatch => "Recipient token account mint mismatch"@,
            ErrorCode::VaultMintMismatch => "Vault token account mint mismatch"@,
            ErrorCode::InsufficientLiquidity => "Insufficient liquidity to withdraw"@,
        }
    }

    /// The message that goes with the reason.
    pub fn message(&self) -> (text: String)
        ensures
            text@ == self.message_text(),
    {
        let text: &str = match self {
            ErrorCode::BumpNotFound => "Bump not found",
            ErrorCode::MintNotAllowed => "Mint not in allowed list",
            ErrorCode::NotAuthorized => "Not authorized to transfer out",
            ErrorCode::SourceMintMismatch => "User source token account mint mismatch",
            ErrorCode::RecipientMintMismatch => "Recipient token account mint mismatch",
            ErrorCode::VaultMintMismatch => "Vault token account mint mismatch",
            ErrorCode::InsufficientLiquidity => "Insufficient liquidity to withdraw",
        };
        text.to_owned()
    }
}

} // verus!
