//! Verified core of the TicketDaddy escrow and NFT-receipt programs.
//!
//! Every instruction of the two on-chain programs is modelled here as a
//! function from the accounts it reads and writes (and the plain values the
//! runtime supplies: signer keys, the clock, PDA bumps) to the new account
//! contents, the event it emits, or the error it fails with.

pub mod pubkey;
pub mod text;
pub mod outcome;
pub mod constraints;
pub mod escrow;
pub mod nft_receipt;
