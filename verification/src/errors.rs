use vstd::prelude::*;

verus! {

/// Every failure a ledger or factory entrypoint can report.
///
/// The variants fall into five groups: validation failures (`ZeroAmount`,
/// `SelfTransfer`, `InvalidPrefix`), lifecycle failures (`NotInitialized`,
/// `AlreadyInitialized`), balance failures (`InsufficientBalance`,
/// `InsufficientDeposit`), registration failures (`ReceiverNotRegistered`,
/// `NonZeroBalance`), and deployment failures (`AccountAlreadyExists`, reported
/// by the platform when the composite provisioning operation is rejected).
#[derive(Clone, Copy, Debug, PartialEq, Eq, Structural)]
pub enum Error {
    /// A transfer of zero tokens was requested.
    ZeroAmount,
    /// Sender and receiver of a transfer are the same account.
    SelfTransfer,
    /// A sub-account prefix is empty or holds a disallowed character.
    InvalidPrefix,
    /// An entrypoint other than initialization ran before initialization.
    NotInitialized,
    /// Initialization ran twice.
    AlreadyInitialized,
    /// The sender's balance is smaller than the transfer amount.
    InsufficientBalance,
    /// The attached deposit does not cover the storage cost of a record.
    InsufficientDeposit,
    /// A credit was directed at an account without a balance record.
    ReceiverNotRegistered,
    /// A non-forced unregistration found a non-zero balance.
    NonZeroBalance,
    /// The platform rejected a provisioning operation: the child exists.
    AccountAlreadyExists,
}

} // verus!
