//! The NFT-receipt program: one receipt NFT per escrow, minted by the
//! escrow program or the admin, burnable on refund.

pub mod state;
pub mod error;
pub mod events;
pub mod accounts;
pub mod instructions;
pub mod laws;
pub mod rules;
