//! Settlement of an escrow: a taker pays the asked amount to the
//! initializer and receives the deposited amount from custody; the custody
//! account is closed and the record destroyed.

use vstd::prelude::*;

use crate::account::{EscrowAccount, TokenAccount};
use crate::error::EscrowError;
use crate::token_ledger;

verus! {

/// The accounts an Exchange call supplies: the taker (who must co-sign)
/// with a source account holding the asked asset and a destination account
/// for the deposit, the open escrow record with the initializer's accounts
/// it references, and the custody account under the program authority.
#[derive(Clone, Copy, Debug)]
pub struct Exchange {
    /// Identity of the party completing the trade.
    pub taker: u64,
    /// Whether the taker co-signed the call.
    pub taker_signed: bool,
    /// The taker's account holding the asked asset, debited on settlement.
    pub taker_deposit_token_account: TokenAccount,
    /// The taker's account credited with the deposit on settlement.
    pub taker_receive_token_account: TokenAccount,
    /// The initializer's source account, named by the record.
    pub initializer_deposit_token_account: TokenAccount,
    /// The initializer's account credited with the asked asset.
    pub initializer_receive_token_account: TokenAccount,
    /// Identity of the initializer, as supplied by the caller.
    pub initializer: u64,
    /// The escrow-record slot; must hold an open record.
    pub escrow_account: Option<EscrowAccount>,
    /// The custody account holding the deposit.
    pub vault_account: TokenAccount,
    /// The program authority the custody account answers to.
    pub vault_authority: u64,
}

/// Exchange is accepted exactly when an open record exists, the taker
/// co-signed and can pay the asked amount, the supplied initializer identity
/// and accounts are the ones the record names, the custody account answers
/// to the program authority, and the two transfers and the close are ones
/// the ledger will perform: the taker controls a source account of the
/// asset the initializer asked to receive, the custody and taker
/// destination accounts hold one asset, neither credit overflows, and
/// custody holds exactly the recorded deposit so it drains to zero.
pub open spec fn exchange_allowed(a: Exchange) -> bool {
    a.escrow_account matches Some(rec) && {
        &&& a.taker_signed
        &&& rec.t_amount <= a.taker_deposit_token_account.amount
        &&& rec.initializer_deposit_token_account == a.initializer_deposit_token_account.key
        &&& rec.initializer_receive_token_account == a.initializer_receive_token_account.key
        &&& rec.initializer_key == a.initializer
        &&& a.vault_account.owner == a.vault_authority
        &&& a.taker_deposit_token_account.owner == a.taker
        &&& a.taker_deposit_token_account.mint == a.initializer_receive_token_account.mint
        &&& a.vault_account.mint == a.taker_receive_token_account.mint
        &&& a.initializer_receive_token_account.amount + rec.t_amount <= u64::MAX
        &&& a.taker_receive_token_account.amount + rec.i_amount <= u64::MAX
        &&& a.vault_account.amount == rec.i_amount
    }
}

/// The failure class of a rejected Exchange: a missing (already consumed)
/// record, an underfunded taker or a mismatched identity or account
/// reference violate a precondition; a missing co-signature or a custody
/// account that does not answer to the program authority is an
/// authorization failure; anything the ledger itself would refuse (wrong
/// source owner, mint mismatch, overflow, custody not holding exactly the
/// deposit) is a ledger-operation failure.
pub open spec fn exchange_error(a: Exchange) -> EscrowError {
    match a.escrow_account {
        None => EscrowError::PreconditionViolation,
        Some(rec) => if !a.taker_signed {
            EscrowError::AuthorizationFailure
        } else if a.taker_deposit_token_account.amount < rec.t_amount
            || rec.initializer_deposit_token_account != a.initializer_deposit_token_account.key
            || rec.initializer_receive_token_account != a.initializer_receive_token_account.key
            || rec.initializer_key != a.initializer {
            EscrowError::PreconditionViolation
        } else if a.vault_account.owner != a.vault_authority {
            EscrowError::AuthorizationFailure
        } else {
            EscrowError::LedgerOperationFailure
        },
    }
}

/// The state an accepted Exchange leaves: the asked amount moved from the
/// taker's source account to the initializer's receive account, the
/// recorded deposit moved from custody to the taker's destination account,
/// custody drained to zero, and the record destroyed.
pub open spec fn exchange_effect(a: Exchange) -> Exchange {
    match a.escrow_account {
        None => a,
        Some(rec) => Exchange {
            taker_deposit_token_account: TokenAccount {
                amount: (a.taker_deposit_token_account.amount - rec.t_amount) as u64,
                ..a.taker_deposit_token_account
            },
            initializer_receive_token_account: TokenAccount {
                amount: (a.initializer_receive_token_account.amount + rec.t_amount) as u64,
                ..a.initializer_receive_token_account
            },
            taker_receive_token_account: TokenAccount {
                amount: (a.taker_receive_token_account.amount + rec.i_amount) as u64,
                ..a.taker_receive_token_account
            },
            vault_account: TokenAccount {
                amount: (a.vault_account.amount - rec.i_amount) as u64,
                ..a.vault_account
            },
            escrow_account: None,
            ..a
        },
    }
}

/// Settle the trade: transfer the asked amount from the taker's source
/// account to the initializer's receive account, then — only within the
/// same accepted call — transfer the deposit from custody to the taker's
/// destination account under the program authority, close the drained
/// custody account and destroy the record.
///
/// The operation is all-or-nothing: it is accepted exactly when
/// `exchange_allowed` holds of the supplied accounts, every listed effect
/// then occurs, and a rejected call reports its failure class and leaves
/// every account and the record exactly as they were — neither party ever
/// receives funds without the other being paid.
pub fn exchange(accounts: &mut Exchange) -> (r: Result<(), EscrowError>)
    ensures
        r is Ok <==> exchange_allowed(*old(accounts)),
        r is Ok ==> *final(accounts) == exchange_effect(*old(accounts)),
        r is Err ==> *final(accounts) == *old(accounts),
        r is Err ==> r == Err::<(), EscrowError>(exchange_error(*old(accounts))),
{
    let rec = match accounts.escrow_account {
        Some(rec) => rec,
        None => {
            return Err(EscrowError::PreconditionViolation);
        },
    };
    if !accounts.taker_signed {
        return Err(EscrowError::AuthorizationFailure);
    }
    if accounts.taker_deposit_token_account.amount < rec.t_amount
        || rec.initializer_deposit_token_account != accounts.initializer_deposit_token_account.key
        || rec.initializer_receive_token_account != accounts.initializer_receive_token_account.key
        || rec.initializer_key != accounts.initializer
    {
        return Err(EscrowError::PreconditionViolation);
    }
    if accounts.vault_account.owner != accounts.vault_authority {
        return Err(EscrowError::AuthorizationFailure);
    }
    if accounts.taker_deposit_token_account.owner != accounts.taker
        || accounts.taker_deposit_token_account.mint
            != accounts.initializer_receive_token_account.mint
        || accounts.vault_account.mint != accounts.taker_receive_token_account.mint
        || accounts.initializer_receive_token_account.amount > u64::MAX - rec.t_amount
        || accounts.taker_receive_token_account.amount > u64::MAX - rec.i_amount
        || accounts.vault_account.amount != rec.i_amount
    {
        return Err(EscrowError::LedgerOperationFailure);
    }

    if let Err(e) = token_ledger::transfer(
        &mut accounts.taker_deposit_token_account,
        &mut accounts.initializer_receive_token_account,
        accounts.taker,
        rec.t_amount,
    ) {
        return Err(e);
    }
    if let Err(e) = token_ledger::transfer(
        &mut accounts.vault_account,
        &mut accounts.taker_receive_token_account,
        accounts.vault_authority,
        rec.i_amount,
    ) {
        return Err(e);
    }
    if let Err(e) = token_ledger::close_account(&accounts.vault_account, accounts.vault_authority)
    {
        return Err(e);
    }
    accounts.escrow_account = None;
    Ok(())
}

} // verus!
