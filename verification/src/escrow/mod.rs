//! The escrow program: business registry, escrow lifecycle and admin settings.

pub mod state;
pub mod error;
pub mod events;
pub mod fees;
pub mod create;
pub mod lifecycle;
pub mod registry;
pub mod admin;
pub mod laws;
pub mod accounts;
pub mod rules;
