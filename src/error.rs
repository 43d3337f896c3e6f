use vstd::prelude::*;

verus! {

/// The ways an operation on the ledger can fail. Any failure leaves every
/// account that the operation touches as it was.
#[derive(Clone, Copy, Debug, PartialEq, Eq, Structural)]
pub enum ErrorCode {
    /// Declared for compatibility; no operation raises it.
    InvalidAmount,
    /// A withdrawal exceeds the tracked claim or the pool's custody, or a
    /// wager exceeds a player's balance.
    InsufficientFunds,
    /// The caller of a game settlement is not the escrow's owner.
    Unauthorized,
    /// Raised by the host: an account could not be loaded.
    AccountNotFound,
    /// Raised by the host: an account holds another kind of data.
    AccountTypeMismatch,
    /// Raised by the host: a transfer of native value failed.
    TransferFailed,
}

pub open spec fn message_of(e: ErrorCode) -> Seq<char> {
    match e {
        ErrorCode::InvalidAmount => "The deposited amount is not the correct value."@,
        ErrorCode::InsufficientFunds => "Insufficient funds for withdrawal."@,
        ErrorCode::Unauthorized => "Unauthorized access."@,
        ErrorCode::AccountNotFound => "The account was not found."@,
        ErrorCode::AccountTypeMismatch => "The account holds another type of data."@,
        ErrorCode::TransferFailed => "The transfer of funds failed."@,
    }
}

impl ErrorCode {
    /// The human-readable message that accompanies the error.
    pub fn message(&self) -> (r: &'static str)
        ensures
            r@ == message_of(*self),
    {
        match self {
            ErrorCode::InvalidAmount => "The deposited amount is not the correct value.",
            ErrorCode::InsufficientFunds => "Insufficient funds for withdrawal.",
            ErrorCode::Unauthorized => "Unauthorized access.",
            ErrorCode::AccountNotFound => "The account was not found.",
            ErrorCode::AccountTypeMismatch => "The account holds another type of data.",
            ErrorCode::TransferFailed => "The transfer of funds failed.",
        }
    }
}

} // verus!
