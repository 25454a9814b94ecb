//! The escrow's governing laws, proved once and for all over the operation
//! specifications: atomicity of the lifecycle, exactly one terminal
//! transition per record, conservation of asset units, and authorization
//! gating.

use vstd::prelude::*;

use crate::cancel::{cancel_allowed, cancel_effect, cancel_error, Cancel};
use crate::error::EscrowError;
use crate::exchange::{exchange_allowed, exchange_effect, exchange_error, Exchange};
use crate::initialize::{initialize_allowed, initialize_effect, initialize_record, Initialize};

verus! {

/// An accepted Initialize leaves the record and the custody in lockstep:
/// the record exists, carries exactly the inputs it was created from, and
/// the custody account holds exactly the recorded deposit under the program
/// authority. "Record exists" and "funds are in custody" coincide from the
/// first moment of the escrow's life.
pub proof fn lemma_initialize_establishes_custody(
    a: Initialize,
    vault_authority: u64,
    i_amount: u64,
    t_amount: u64,
)
    requires
        initialize_allowed(a, i_amount),
    ensures
        initialize_effect(a, vault_authority, i_amount, t_amount).escrow_account
            == Some(initialize_record(a, i_amount, t_amount)),
        initialize_effect(a, vault_authority, i_amount, t_amount).vault_account.amount
            == i_amount,
        initialize_effect(a, vault_authority, i_amount, t_amount).vault_account.owner
            == vault_authority,
{
}

/// An accepted Exchange destroys the record and drains the custody account
/// in the same step: there is no state in which one has happened without
/// the other.
pub proof fn lemma_exchange_consumes_escrow(a: Exchange)
    requires
        exchange_allowed(a),
    ensures
        exchange_effect(a).escrow_account is None,
        exchange_effect(a).vault_account.amount == 0,
{
}

/// An accepted Cancel destroys the record and drains the custody account in
/// the same step, mirroring `lemma_exchange_consumes_escrow`.
pub proof fn lemma_cancel_consumes_escrow(a: Cancel)
    requires
        cancel_allowed(a),
    ensures
        cancel_effect(a).escrow_account is None,
        cancel_effect(a).vault_account.amount == 0,
{
}

/// Once an Exchange commits, the record is gone, and any later Exchange or
/// Cancel presented with that record slot is rejected as a precondition
/// violation: the record's destruction is the mutual-exclusion mechanism,
/// and exactly one terminal transition ever fires.
pub proof fn lemma_exchange_is_final(a: Exchange, later_exchange: Exchange, later_cancel: Cancel)
    requires
        exchange_allowed(a),
        later_exchange.escrow_account == exchange_effect(a).escrow_account,
        later_cancel.escrow_account == exchange_effect(a).escrow_account,
    ensures
        !exchange_allowed(later_exchange),
        exchange_error(later_exchange) == EscrowError::PreconditionViolation,
        !cancel_allowed(later_cancel),
        cancel_error(later_cancel) == EscrowError::PreconditionViolation,
{
}

/// Once a Cancel commits, the record is gone, and any later Exchange or
/// Cancel presented with that record slot is rejected as a precondition
/// violation, mirroring `lemma_exchange_is_final`.
pub proof fn lemma_cancel_is_final(a: Cancel, later_exchange: Exchange, later_cancel: Cancel)
    requires
        cancel_allowed(a),
        later_exchange.escrow_account == cancel_effect(a).escrow_account,
        later_cancel.escrow_account == cancel_effect(a).escrow_account,
    ensures
        !exchange_allowed(later_exchange),
        exchange_error(later_exchange) == EscrowError::PreconditionViolation,
        !cancel_allowed(later_cancel),
        cancel_error(later_cancel) == EscrowError::PreconditionViolation,
{
}

/// Total asset units across the initializer's two accounts and the custody
/// account, as an unbounded integer.
pub open spec fn initialize_total(a: Initialize) -> int {
    a.initializer_deposit_token_account.amount + a.initializer_receive_token_account.amount
        + a.vault_account.amount
}

/// Total asset units across the five accounts an Exchange touches, as an
/// unbounded integer.
pub open spec fn exchange_total(a: Exchange) -> int {
    a.taker_deposit_token_account.amount + a.taker_receive_token_account.amount
        + a.initializer_deposit_token_account.amount
        + a.initializer_receive_token_account.amount + a.vault_account.amount
}

/// Total asset units across the custody account and the refund account, as
/// an unbounded integer.
pub open spec fn cancel_total(a: Cancel) -> int {
    a.vault_account.amount + a.initializer_deposit_token_account.amount
}

/// An accepted Initialize neither mints nor burns: it only moves the
/// deposit from the initializer's source account into custody.
pub proof fn lemma_initialize_conserves_units(
    a: Initialize,
    vault_authority: u64,
    i_amount: u64,
    t_amount: u64,
)
    requires
        initialize_allowed(a, i_amount),
    ensures
        initialize_total(initialize_effect(a, vault_authority, i_amount, t_amount))
            == initialize_total(a),
{
}

/// An accepted Exchange neither mints nor burns: the asked amount and the
/// deposit move between the named accounts, and the total across all five
/// is unchanged.
pub proof fn lemma_exchange_conserves_units(a: Exchange)
    requires
        exchange_allowed(a),
    ensures
        exchange_total(exchange_effect(a)) == exchange_total(a),
{
}

/// An accepted Cancel neither mints nor burns: the deposit moves from
/// custody back to the refund account.
pub proof fn lemma_cancel_conserves_units(a: Cancel)
    requires
        cancel_allowed(a),
    ensures
        cancel_total(cancel_effect(a)) == cancel_total(a),
{
}

/// Across a whole trade — Initialize and then Exchange on the state it
/// left, with the taker's accounts joining — the total held by the
/// initializer's accounts, the taker's accounts and custody after
/// settlement equals the total before creation: nothing is minted or
/// burned anywhere in the lifecycle.
pub proof fn lemma_trade_conserves_units(
    a: Initialize,
    vault_authority: u64,
    i_amount: u64,
    t_amount: u64,
    b: Exchange,
)
    requires
        initialize_allowed(a, i_amount),
        exchange_allowed(b),
        b.escrow_account == initialize_effect(
            a,
            vault_authority,
            i_amount,
            t_amount,
        ).escrow_account,
        b.vault_account == initialize_effect(a, vault_authority, i_amount, t_amount).vault_account,
        b.initializer_deposit_token_account == initialize_effect(
            a,
            vault_authority,
            i_amount,
            t_amount,
        ).initializer_deposit_token_account,
        b.initializer_receive_token_account == a.initializer_receive_token_account,
    ensures
        exchange_total(exchange_effect(b)) == initialize_total(a)
            + b.taker_deposit_token_account.amount + b.taker_receive_token_account.amount,
{
    lemma_initialize_conserves_units(a, vault_authority, i_amount, t_amount);
    lemma_exchange_conserves_units(b);
}

/// While the record is open, settlement is owed: an Exchange presented with
/// the record and custody account exactly as Initialize left them, the
/// initializer's accounts the record names, and a co-signing taker who
/// controls a source account of the asked asset with a sufficient balance
/// is accepted, provided neither credited balance overflows.
pub proof fn lemma_open_escrow_settles(
    a: Initialize,
    vault_authority: u64,
    i_amount: u64,
    t_amount: u64,
    b: Exchange,
)
    requires
        initialize_allowed(a, i_amount),
        b.escrow_account == initialize_effect(
            a,
            vault_authority,
            i_amount,
            t_amount,
        ).escrow_account,
        b.vault_account == initialize_effect(a, vault_authority, i_amount, t_amount).vault_account,
        b.vault_authority == vault_authority,
        b.initializer == a.initializer,
        b.initializer_deposit_token_account.key == a.initializer_deposit_token_account.key,
        b.initializer_receive_token_account == a.initializer_receive_token_account,
        b.taker_signed,
        b.taker_deposit_token_account.owner == b.taker,
        t_amount <= b.taker_deposit_token_account.amount,
        b.taker_deposit_token_account.mint == a.initializer_receive_token_account.mint,
        b.taker_receive_token_account.mint == a.vault_account.mint,
        a.initializer_receive_token_account.amount + t_amount <= u64::MAX,
        b.taker_receive_token_account.amount + i_amount <= u64::MAX,
    ensures
        exchange_allowed(b),
{
}

/// While the record is open, recovery is owed: a Cancel presented with the
/// record and custody account exactly as Initialize left them, by the
/// co-signing initializer naming the recorded refund account, is accepted,
/// provided the refunded balance does not overflow. There is no other
/// condition: cancellation is available at any time while the record is
/// open.
pub proof fn lemma_open_escrow_cancels(
    a: Initialize,
    vault_authority: u64,
    i_amount: u64,
    t_amount: u64,
    c: Cancel,
)
    requires
        initialize_allowed(a, i_amount),
        c.escrow_account == initialize_effect(
            a,
            vault_authority,
            i_amount,
            t_amount,
        ).escrow_account,
        c.vault_account == initialize_effect(a, vault_authority, i_amount, t_amount).vault_account,
        c.vault_authority == vault_authority,
        c.initializer == a.initializer,
        c.initializer_signed,
        c.initializer_deposit_token_account.key == a.initializer_deposit_token_account.key,
        c.initializer_deposit_token_account.mint == a.vault_account.mint,
        c.initializer_deposit_token_account.amount + i_amount <= u64::MAX,
    ensures
        cancel_allowed(c),
{
}

/// Exchange is gated on the taker's ability to pay: with the record asking
/// more than the taker's source account holds, the call is rejected, and —
/// for a co-signing taker — rejected as a precondition violation before
/// anything else is considered.
pub proof fn lemma_underfunded_taker_rejected(a: Exchange)
    requires
        a.escrow_account matches Some(rec)
            && a.taker_deposit_token_account.amount < rec.t_amount,
    ensures
        !exchange_allowed(a),
        a.taker_signed ==> exchange_error(a) == EscrowError::PreconditionViolation,
{
}

/// Cancel is gated on identity: a caller other than the recorded
/// initializer is rejected, and — when co-signing — rejected as a
/// precondition violation.
pub proof fn lemma_foreign_canceller_rejected(a: Cancel)
    requires
        a.escrow_account matches Some(rec) && rec.initializer_key != a.initializer,
    ensures
        !cancel_allowed(a),
        a.initializer_signed ==> cancel_error(a) == EscrowError::PreconditionViolation,
{
}

} // verus!
