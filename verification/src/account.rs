//! The two durable entities of the escrow: token accounts on the underlying
//! ledger, and the escrow record describing one open trade.
//!
//! Identities (accounts, mints, authorities) are abstract numeric
//! identifiers. The hosting substrate addresses accounts by 32-byte keys; a
//! caller maps each distinct key it handles to one identifier and back. The
//! program authority's real key is derived in `authority`.

use vstd::prelude::*;

verus! {

/// One fungible-token account of the underlying ledger: its identity, the
/// asset (mint) it holds, the authority that controls it, and its balance.
#[derive(Clone, Copy, Debug, PartialEq, Eq, Structural)]
pub struct TokenAccount {
    /// Identity of the account itself.
    pub key: u64,
    /// Identity of the asset the account holds units of.
    pub mint: u64,
    /// Identity of the authority that may move the balance.
    pub owner: u64,
    /// Balance, in asset units.
    pub amount: u64,
}

/// The escrow record: the terms and party identities of one open trade.
///
/// The record exists exactly while the escrow is open; whichever terminal
/// transition fires destroys it, so "record exists" and "deposit is in
/// custody" coincide. The two amounts are fixed at creation and never
/// mutated.
#[derive(Clone, Copy, Debug, PartialEq, Eq, Structural)]
pub struct EscrowAccount {
    /// The party that created the trade; sole beneficiary of cancellation.
    pub initializer_key: u64,
    /// The initializer's account debited at creation and refunded on cancel.
    pub initializer_deposit_token_account: u64,
    /// The initializer's account credited with the taker's asset on settle.
    pub initializer_receive_token_account: u64,
    /// Amount the initializer locked into custody.
    pub i_amount: u64,
    /// Amount the initializer demands from the taker.
    pub t_amount: u64,
}

} // verus!
