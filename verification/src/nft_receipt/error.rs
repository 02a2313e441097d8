use vstd::prelude::*;

verus! {

/// Every way an NFT-receipt instruction can fail.
#[derive(Clone, Copy, Debug, PartialEq, Eq, Structural)]
pub enum NFTError {
    ProgramPaused,
    UnauthorizedMinter,
    EscrowAlreadyMinted,
    EscrowIdTooLong,
    NameTooLong,
    SymbolTooLong,
    URITooLong,
    ArrayLengthMismatch,
    BatchTooLarge,
    InvalidMetadata,
    UnauthorizedBurn,
}

} // verus!
