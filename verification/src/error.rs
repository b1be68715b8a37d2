//! The ways in which an operation on a vault is refused.

use vstd::prelude::*;

verus! {

/// Why an operation was refused. Every refusal aborts the whole operation:
/// nothing of it is recorded and nothing is retried.
#[derive(Clone, Copy, Debug, PartialEq, Eq, Structural)]
pub enum ErrorCode {
    /// The supplied vault account is not the address derived for the authority.
    InvalidVaultAddress,
    /// The caller is not the one party that the active policy lets withdraw.
    Unauthorized,
    /// The controlling authority tried to withdraw from its own vault.
    AssetManagerCannotWithdraw,
    /// The vault records no balance of the requested token type.
    TokenNotFound,
    /// The vault records less of the token type than was requested.
    InsufficientFunds,
    /// Adding the deposit to the recorded balance would leave the range of `u64`.
    ArithmeticOverflow,
    /// The operation was handed fewer accounts than it reads.
    NotEnoughAccountKeys,
    /// The token program named in the request is not the one that holds the tokens.
    IncorrectProgramId,
}

impl ErrorCode {
    /// The text shown to a caller for this refusal.
    pub open spec fn text(self) -> Seq<char> {
        match self {
            ErrorCode::InvalidVaultAddress => "The vault account does not match the derived address"@,
            ErrorCode::Unauthorized => "The withdrawer is not the vault's authority"@,
            ErrorCode::AssetManagerCannotWithdraw => "The asset manager cannot withdraw funds"@,
            ErrorCode::TokenNotFound => "Token not found in the vault"@,
            ErrorCode::InsufficientFunds => "Insufficient funds for withdrawal"@,
            ErrorCode::ArithmeticOverflow => "The balance would overflow"@,
            ErrorCode::NotEnoughAccountKeys => "Not enough account keys were provided"@,
            ErrorCode::IncorrectProgramId => "The token program is not the expected one"@,
        }
    }

    pub fn message(&self) -> (text: &'static str)
        ensures
            text@ == self.text(),
    {
        match self {
            ErrorCode::InvalidVaultAddress => "The vault account does not match the derived address",
            ErrorCode::Unauthorized => "The withdrawer is not the vault's authority",
            ErrorCode::AssetManagerCannotWithdraw => "The asset manager cannot withdraw funds",
            ErrorCode::TokenNotFound => "Token not found in the vault",
            ErrorCode::InsufficientFunds => "Insufficient funds for withdrawal",
            ErrorCode::ArithmeticOverflow => "The balance would overflow",
            ErrorCode::NotEnoughAccountKeys => "Not enough account keys were provided",
            ErrorCode::IncorrectProgramId => "The token program is not the expected one",
        }
    }
}

/// Why an operation that leans on the host did not go through: this crate
/// refused it, or the host failed. A failure of the host is handed on exactly
/// as it came.
#[derive(Debug, PartialEq, Eq)]
pub enum Failure<E> {
    Refused(ErrorCode),
    Host(E),
}

} // verus!
