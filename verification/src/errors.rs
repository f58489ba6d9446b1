//! Error codes emitted by ledger transactions during execution.
//!
//! Each error has a stable single-byte wire code and a human-readable
//! description; the codes must never be renumbered, since they are part of
//! the wire representation of a rejection.

use vstd::prelude::*;

verus! {

/// An execution-time rejection of a transaction.
///
/// Only the first four variants are ever emitted by the transaction kinds of
/// this crate; the remaining ones are kept in the taxonomy for forward
/// compatibility and have no trigger condition here.
#[derive(Clone, Copy, Debug, PartialEq, Eq, Structural)]
pub enum Error {
    /// A portfolio already exists for the requesting identity.
    ///
    /// Can be emitted by `CreatePortfolio`.
    WalletAlreadyExists,
    /// The sender does not exist.
    SenderNotFound,
    /// The receiver does not exist.
    ///
    /// Can be emitted by `Transfer`.
    ReceiverNotFound,
    /// Insufficient currency amount.
    InsufficientCurrencyAmount,
    /// The time window has passed.
    Timeisup,
    /// The public key does not belong to an inspector.
    NotInspector,
    /// The public key does not belong to an issuer.
    NotIssuer,
}

impl Error {
    /// The stable single-byte wire code of this error.
    pub open spec fn spec_code(self) -> u8 {
        match self {
            Error::WalletAlreadyExists => 0,
            Error::SenderNotFound => 1,
            Error::ReceiverNotFound => 2,
            Error::InsufficientCurrencyAmount => 3,
            Error::Timeisup => 4,
            Error::NotInspector => 5,
            Error::NotIssuer => 6,
        }
    }

    /// The human-readable description of this error.
    pub open spec fn spec_description(self) -> Seq<char> {
        match self {
            Error::WalletAlreadyExists => "Wallet already exists"@,
            Error::SenderNotFound => "Sender doesn't exist"@,
            Error::ReceiverNotFound => "Receiver doesn't exist"@,
            Error::InsufficientCurrencyAmount => "Insufficient currency amount"@,
            Error::Timeisup => "Time is up"@,
            Error::NotInspector => "Pubkey doesn't belong to inspector"@,
            Error::NotIssuer => "Pubkey doesn't belong to issuer"@,
        }
    }

    /// The numeric code carried in the wire representation of a rejection.
    pub fn code(&self) -> (c: u8)
        ensures
            c == self.spec_code(),
    {
        match self {
            Error::WalletAlreadyExists => 0,
            Error::SenderNotFound => 1,
            Error::ReceiverNotFound => 2,
            Error::InsufficientCurrencyAmount => 3,
            Error::Timeisup => 4,
            Error::NotInspector => 5,
            Error::NotIssuer => 6,
        }
    }

    /// The description string carried in the wire representation of a
    /// rejection.
    pub fn description(&self) -> (d: &'static str)
        ensures
            d@ == self.spec_description(),
    {
        match self {
            Error::WalletAlreadyExists => "Wallet already exists",
            Error::SenderNotFound => "Sender doesn't exist",
            Error::ReceiverNotFound => "Receiver doesn't exist",
            Error::InsufficientCurrencyAmount => "Insufficient currency amount",
            Error::Timeisup => "Time is up",
            Error::NotInspector => "Pubkey doesn't belong to inspector",
            Error::NotIssuer => "Pubkey doesn't belong to issuer",
        }
    }
}

} // verus!
