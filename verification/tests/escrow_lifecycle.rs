//! End-to-end scenarios for the escrow lifecycle: creation, settlement,
//! cancellation, and the rejections that guard them.

use anchor_escrow::cancel::{cancel, Cancel};
use anchor_escrow::exchange::{exchange, Exchange};
use anchor_escrow::initialize::{initialize, Initialize};
use anchor_escrow::{EscrowAccount, EscrowError, TokenAccount};

const INITIALIZER: u64 = 1;
const TAKER: u64 = 2;
const VAULT_AUTHORITY: u64 = 99;
const ASSET_A: u64 = 7;
const ASSET_B: u64 = 8;

fn fresh_initialize() -> Initialize {
    Initialize {
        initializer: INITIALIZER,
        initializer_signed: true,
        mint: ASSET_A,
        vault_account: TokenAccount { key: 10, mint: ASSET_A, owner: INITIALIZER, amount: 0 },
        initializer_deposit_token_account: TokenAccount {
            key: 11,
            mint: ASSET_A,
            owner: INITIALIZER,
            amount: 150,
        },
        initializer_receive_token_account: TokenAccount {
            key: 12,
            mint: ASSET_B,
            owner: INITIALIZER,
            amount: 5,
        },
        escrow_account: None,
    }
}

fn opened() -> Initialize {
    let mut a = fresh_initialize();
    initialize(&mut a, VAULT_AUTHORITY, 100, 50).unwrap();
    a
}

fn exchange_for(a: &Initialize, taker_balance: u64) -> Exchange {
    Exchange {
        taker: TAKER,
        taker_signed: true,
        taker_deposit_token_account: TokenAccount {
            key: 20,
            mint: ASSET_B,
            owner: TAKER,
            amount: taker_balance,
        },
        taker_receive_token_account: TokenAccount { key: 21, mint: ASSET_A, owner: TAKER, amount: 0 },
        initializer_deposit_token_account: a.initializer_deposit_token_account,
        initializer_receive_token_account: a.initializer_receive_token_account,
        initializer: INITIALIZER,
        escrow_account: a.escrow_account,
        vault_account: a.vault_account,
        vault_authority: VAULT_AUTHORITY,
    }
}

fn cancel_for(a: &Initialize) -> Cancel {
    Cancel {
        initializer: INITIALIZER,
        initializer_signed: true,
        vault_account: a.vault_account,
        vault_authority: VAULT_AUTHORITY,
        initializer_deposit_token_account: a.initializer_deposit_token_account,
        escrow_account: a.escrow_account,
    }
}

#[test]
fn initialize_creates_record_and_funds_custody() {
    let mut a = fresh_initialize();
    let r = initialize(&mut a, VAULT_AUTHORITY, 100, 50);
    assert!(r.is_ok());
    assert_eq!(a.vault_account.amount, 100);
    assert_eq!(a.vault_account.owner, VAULT_AUTHORITY);
    assert_eq!(a.initializer_deposit_token_account.amount, 50);
    assert_eq!(
        a.escrow_account,
        Some(EscrowAccount {
            initializer_key: INITIALIZER,
            initializer_deposit_token_account: 11,
            initializer_receive_token_account: 12,
            i_amount: 100,
            t_amount: 50,
        })
    );
}

#[test]
fn exchange_pays_both_parties_and_closes_custody() {
    let a = opened();
    let mut b = exchange_for(&a, 60);
    let r = exchange(&mut b);
    assert!(r.is_ok());
    assert_eq!(b.initializer_receive_token_account.amount, 55);
    assert_eq!(b.taker_deposit_token_account.amount, 10);
    assert_eq!(b.taker_receive_token_account.amount, 100);
    assert_eq!(b.vault_account.amount, 0);
    assert_eq!(b.escrow_account, None);
}

#[test]
fn underfunded_taker_is_rejected_without_any_change() {
    let a = opened();
    let mut b = exchange_for(&a, 49);
    let before_taker_deposit = b.taker_deposit_token_account;
    let before_taker_receive = b.taker_receive_token_account;
    let before_initializer_receive = b.initializer_receive_token_account;
    let before_vault = b.vault_account;
    let r = exchange(&mut b);
    assert_eq!(r, Err(EscrowError::PreconditionViolation));
    assert_eq!(b.taker_deposit_token_account, before_taker_deposit);
    assert_eq!(b.taker_receive_token_account, before_taker_receive);
    assert_eq!(b.initializer_receive_token_account, before_initializer_receive);
    assert_eq!(b.vault_account, before_vault);
    assert!(b.escrow_account.is_some());
}

#[test]
fn cancel_refunds_initializer_and_destroys_record() {
    let a = opened();
    let mut c = cancel_for(&a);
    let r = cancel(&mut c);
    assert!(r.is_ok());
    assert_eq!(c.initializer_deposit_token_account.amount, 150);
    assert_eq!(c.vault_account.amount, 0);
    assert_eq!(c.escrow_account, None);
}

#[test]
fn consumed_record_rejects_late_exchange_and_second_cancel() {
    let a = opened();
    let mut c = cancel_for(&a);
    cancel(&mut c).unwrap();

    let mut late = exchange_for(&a, 60);
    late.escrow_account = c.escrow_account;
    late.vault_account = c.vault_account;
    assert_eq!(exchange(&mut late), Err(EscrowError::PreconditionViolation));

    let mut again = cancel_for(&a);
    again.escrow_account = c.escrow_account;
    again.vault_account = c.vault_account;
    again.initializer_deposit_token_account = c.initializer_deposit_token_account;
    assert_eq!(cancel(&mut again), Err(EscrowError::PreconditionViolation));
}

#[test]
fn settled_record_rejects_late_cancel() {
    let a = opened();
    let mut b = exchange_for(&a, 60);
    exchange(&mut b).unwrap();

    let mut late = cancel_for(&a);
    late.escrow_account = b.escrow_account;
    late.vault_account = b.vault_account;
    late.initializer_deposit_token_account = b.initializer_deposit_token_account;
    assert_eq!(cancel(&mut late), Err(EscrowError::PreconditionViolation));
}

#[test]
fn exchange_conserves_total_units() {
    let a = opened();
    let mut b = exchange_for(&a, 60);
    let total_before: u128 = b.taker_deposit_token_account.amount as u128
        + b.taker_receive_token_account.amount as u128
        + b.initializer_deposit_token_account.amount as u128
        + b.initializer_receive_token_account.amount as u128
        + b.vault_account.amount as u128;
    exchange(&mut b).unwrap();
    let total_after: u128 = b.taker_deposit_token_account.amount as u128
        + b.taker_receive_token_account.amount as u128
        + b.initializer_deposit_token_account.amount as u128
        + b.initializer_receive_token_account.amount as u128
        + b.vault_account.amount as u128;
    assert_eq!(total_before, total_after);
}

#[test]
fn unsigned_initializer_is_an_authorization_failure() {
    let mut a = fresh_initialize();
    a.initializer_signed = false;
    assert_eq!(
        initialize(&mut a, VAULT_AUTHORITY, 100, 50),
        Err(EscrowError::AuthorizationFailure)
    );
    assert_eq!(a.escrow_account, None);
    assert_eq!(a.vault_account.amount, 0);
}

#[test]
fn unsigned_taker_is_an_authorization_failure() {
    let a = opened();
    let mut b = exchange_for(&a, 60);
    b.taker_signed = false;
    assert_eq!(exchange(&mut b), Err(EscrowError::AuthorizationFailure));
}

#[test]
fn foreign_canceller_is_rejected() {
    let a = opened();
    let mut c = cancel_for(&a);
    c.initializer = TAKER;
    assert_eq!(cancel(&mut c), Err(EscrowError::PreconditionViolation));
    assert!(c.escrow_account.is_some());
    assert_eq!(c.vault_account.amount, 100);
}

#[test]
fn mint_mismatch_is_a_ledger_failure() {
    let mut a = fresh_initialize();
    a.vault_account.mint = ASSET_B;
    assert_eq!(
        initialize(&mut a, VAULT_AUTHORITY, 100, 50),
        Err(EscrowError::LedgerOperationFailure)
    );
    assert_eq!(a.escrow_account, None);
}

#[test]
fn insufficient_deposit_balance_is_rejected_before_any_mutation() {
    let mut a = fresh_initialize();
    a.initializer_deposit_token_account.amount = 99;
    assert_eq!(
        initialize(&mut a, VAULT_AUTHORITY, 100, 50),
        Err(EscrowError::PreconditionViolation)
    );
    assert_eq!(a.initializer_deposit_token_account.amount, 99);
    assert_eq!(a.vault_account.amount, 0);
    assert_eq!(a.escrow_account, None);
}

#[test]
fn occupied_record_slot_rejects_initialize() {
    let mut a = fresh_initialize();
    a.escrow_account = Some(EscrowAccount {
        initializer_key: INITIALIZER,
        initializer_deposit_token_account: 11,
        initializer_receive_token_account: 12,
        i_amount: 1,
        t_amount: 1,
    });
    let before = a.escrow_account;
    assert_eq!(
        initialize(&mut a, VAULT_AUTHORITY, 100, 50),
        Err(EscrowError::PreconditionViolation)
    );
    assert_eq!(a.escrow_account, before);
}

#[test]
fn custody_outside_program_authority_is_an_authorization_failure() {
    let a = opened();
    let mut b = exchange_for(&a, 60);
    b.vault_authority = VAULT_AUTHORITY + 1;
    assert_eq!(exchange(&mut b), Err(EscrowError::AuthorizationFailure));
}

#[test]
fn wrong_initializer_accounts_reject_exchange() {
    let a = opened();
    let mut b = exchange_for(&a, 60);
    b.initializer_deposit_token_account.key = 999;
    assert_eq!(exchange(&mut b), Err(EscrowError::PreconditionViolation));

    let mut b2 = exchange_for(&a, 60);
    b2.initializer = TAKER;
    assert_eq!(exchange(&mut b2), Err(EscrowError::PreconditionViolation));
}
