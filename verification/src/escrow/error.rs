use vstd::prelude::*;

verus! {

/// Every way an escrow instruction can fail.
#[derive(Clone, Copy, Debug, PartialEq, Eq, Structural)]
pub enum EscrowError {
    BusinessAlreadyExists,
    BusinessNotFound,
    BusinessNotActive,
    BusinessAlreadySuspended,
    BusinessNotSuspended,
    EscrowNotFound,
    TokenNotSupported,
    InsufficientAmount,
    EscrowNotReady,
    EscrowNotActive,
    CannotRefund,
    UnauthorizedRefund,
    UnauthorizedRelease,
    TransactionNotActive,
    TransactionNotPaused,
    InvalidEscrowDuration,
    DuplicateEscrowId,
    WalletAlreadyAssigned,
    SameWalletAddress,
    ProgramPaused,
    BusinessIdTooLong,
    BusinessNameTooLong,
    EscrowIdTooLong,
    ReleaseTimeInPast,
    ReleaseTimeTooFar,
    CannotShortenReleaseTime,
    UnauthorizedReleaseTimeUpdate,
    TransferFailed,
    InvalidAddress,
    InvalidProductType,
    InvalidProductTypeFee,
    TokenNotWhitelisted,
    TokenAlreadyWhitelisted,
}

} // verus!
