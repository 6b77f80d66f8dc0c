//! The failures of the four operations.

use vstd::prelude::*;

verus! {

/// Why an account could not be created.
#[derive(Clone, Copy, Debug, PartialEq, Eq, Structural)]
pub enum BootstrapError {
    /// The recovery phrase is malformed, fails its checksum, or yields no usable key.
    InvalidPhrase,
    /// No tree state preceding the birthday could be had from the chain index.
    BirthdayAnchorFailed,
    /// An account exists already.
    AccountExists,
}

/// Why a synchronisation stopped before the chain tip.
#[derive(Clone, Copy, Debug, PartialEq, Eq, Structural)]
pub enum SyncError {
    /// The chain index could not be reached; the whole call may be repeated.
    Transport,
    /// Blocks arrived out of order or with a gap, or the store failed. Not retried.
    Inconsistent,
}

/// Why no balance could be reported.
#[derive(Clone, Copy, Debug, PartialEq, Eq, Structural)]
pub enum BalanceError {
    /// The wallet store holds no account.
    NoAccount,
}

/// Why a transfer did not reach the chain.
#[derive(Clone, Debug, PartialEq, Eq)]
pub enum TransferError {
    /// The destination is no address.
    InvalidAddress,
    /// The spendable balance does not cover the amount and the fee.
    InsufficientFunds,
    /// The proposal could not be authorized or proved.
    AuthorizationFailed,
    /// The chain index refused the transaction; code and message are its own.
    Rejected { code: i32, message: String },
    /// The transaction was handed over and no answer came back: it may or may
    /// not have been accepted, and must not be sent again blindly.
    SubmissionUncertain,
}

} // verus!
