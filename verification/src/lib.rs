//! A two-party token-for-token escrow: an initializer locks a deposit into a
//! program-controlled custody account together with the terms of the trade,
//! and the trade then ends in exactly one of two terminal transitions —
//! Exchange (a taker pays the asked amount and receives the deposit) or
//! Cancel (the initializer reclaims the deposit).

pub mod account;
pub mod authority;
pub mod cancel;
pub mod error;
pub mod exchange;
pub mod initialize;
pub mod laws;
pub mod token_ledger;

pub use account::{EscrowAccount, TokenAccount};
pub use error::EscrowError;
