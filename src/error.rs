use vstd::prelude::*;

verus! {

/// Every way a ledger operation can fail.
#[derive(Clone, Copy, Debug, PartialEq, Eq, Structural)]
pub enum LedgerError {
    /// A non-positive amount or quantity where a positive one is required.
    InvalidAmount,
    /// A balance or amount would leave the range of `i64`.
    AmountOverflow,
    UserNotFound,
    ArticleNotFound,
    /// The card number is already held by another user.
    CardNumberInUse,
    /// No such transaction, or it belongs to another user.
    TransactionNotFound,
    AlreadyUndone,
    GracePeriodExpired,
    /// A transfer whose sender and receiver are the same user.
    SelfTransfer,
    /// The store cannot take another row (its identifiers are exhausted).
    StorageFailure,
}

} // verus!
