//! Cancellation of an escrow: the initializer reclaims the deposit, the
//! custody account is closed and the record destroyed. This is the sole
//! recovery path if no taker ever appears, and it is available at any time
//! while the record is open.

use vstd::prelude::*;

use crate::account::{EscrowAccount, TokenAccount};
use crate::error::EscrowError;
use crate::token_ledger;

verus! {

/// The accounts a Cancel call supplies: the initializer (who must co-sign),
/// the source account to refund, the open escrow record, and the custody
/// account under the program authority.
#[derive(Clone, Copy, Debug)]
pub struct Cancel {
    /// Identity of the caller asking to unwind the trade.
    pub initializer: u64,
    /// Whether the caller co-signed the call.
    pub initializer_signed: bool,
    /// The custody account holding the deposit.
    pub vault_account: TokenAccount,
    /// The program authority the custody account answers to.
    pub vault_authority: u64,
    /// The initializer's source account, refunded on cancellation.
    pub initializer_deposit_token_account: TokenAccount,
    /// The escrow-record slot; must hold an open record.
    pub escrow_account: Option<EscrowAccount>,
}

/// Cancel is accepted exactly when an open record exists, the caller is the
/// recorded initializer and co-signed, the supplied refund account is the
/// one the record names, the custody account answers to the program
/// authority, and the refund is one the ledger will perform: custody and
/// refund account hold one asset, the credit cannot overflow, and custody
/// holds exactly the recorded deposit so it drains to zero.
pub open spec fn cancel_allowed(a: Cancel) -> bool {
    a.escrow_account matches Some(rec) && {
        &&& a.initializer_signed
        &&& rec.initializer_key == a.initializer
        &&& rec.initializer_deposit_token_account == a.initializer_deposit_token_account.key
        &&& a.vault_account.owner == a.vault_authority
        &&& a.vault_account.mint == a.initializer_deposit_token_account.mint
        &&& a.initializer_deposit_token_account.amount + rec.i_amount <= u64::MAX
        &&& a.vault_account.amount == rec.i_amount
    }
}

/// The failure class of a rejected Cancel: a missing (already consumed)
/// record, a caller other than the recorded initializer or a wrong refund
/// account violate a precondition; a missing co-signature or a custody
/// account that does not answer to the program authority is an
/// authorization failure; anything the ledger itself would refuse (mint
/// mismatch, overflow, custody not holding exactly the deposit) is a
/// ledger-operation failure.
pub open spec fn cancel_error(a: Cancel) -> EscrowError {
    match a.escrow_account {
        None => EscrowError::PreconditionViolation,
        Some(rec) => if !a.initializer_signed {
            EscrowError::AuthorizationFailure
        } else if rec.initializer_key != a.initializer
            || rec.initializer_deposit_token_account
                != a.initializer_deposit_token_account.key {
            EscrowError::PreconditionViolation
        } else if a.vault_account.owner != a.vault_authority {
            EscrowError::AuthorizationFailure
        } else {
            EscrowError::LedgerOperationFailure
        },
    }
}

/// The state an accepted Cancel leaves: the recorded deposit moved from
/// custody back to the initializer's source account, custody drained to
/// zero, and the record destroyed.
pub open spec fn cancel_effect(a: Cancel) -> Cancel {
    match a.escrow_account {
        None => a,
        Some(rec) => Cancel {
            vault_account: TokenAccount {
                amount: (a.vault_account.amount - rec.i_amount) as u64,
                ..a.vault_account
            },
            initializer_deposit_token_account: TokenAccount {
                amount: (a.initializer_deposit_token_account.amount + rec.i_amount) as u64,
                ..a.initializer_deposit_token_account
            },
            escrow_account: None,
            ..a
        },
    }
}

/// Unwind the trade: transfer the recorded deposit from custody back to the
/// initializer's source account under the program authority, close the
/// drained custody account and destroy the record.
///
/// The operation is all-or-nothing: it is accepted exactly when
/// `cancel_allowed` holds of the supplied accounts, every listed effect
/// then occurs, and a rejected call reports its failure class and leaves
/// every account and the record exactly as they were.
pub fn cancel(accounts: &mut Cancel) -> (r: Result<(), EscrowError>)
    ensures
        r is Ok <==> cancel_allowed(*old(accounts)),
        r is Ok ==> *final(accounts) == cancel_effect(*old(accounts)),
        r is Err ==> *final(accounts) == *old(accounts),
        r is Err ==> r == Err::<(), EscrowError>(cancel_error(*old(accounts))),
{
    let rec = match accounts.escrow_account {
        Some(rec) => rec,
        None => {
            return Err(EscrowError::PreconditionViolation);
        },
    };
    if !accounts.initializer_signed {
        return Err(EscrowError::AuthorizationFailure);
    }
    if rec.initializer_key != accounts.initializer
        || rec.initializer_deposit_token_account
            != accounts.initializer_deposit_token_account.key
    {
        return Err(EscrowError::PreconditionViolation);
    }
    if accounts.vault_account.owner != accounts.vault_authority {
        return Err(EscrowError::AuthorizationFailure);
    }
    if accounts.vault_account.mint != accounts.initializer_deposit_token_account.mint
        || accounts.initializer_deposit_token_account.amount > u64::MAX - rec.i_amount
        || accounts.vault_account.amount != rec.i_amount
    {
        return Err(EscrowError::LedgerOperationFailure);
    }

    if let Err(e) = token_ledger::transfer(
        &mut accounts.vault_account,
        &mut accounts.initializer_deposit_token_account,
        accounts.vault_authority,
        rec.i_amount,
    ) {
        return Err(e);
    }
    if let Err(e) = token_ledger::close_account(&accounts.vault_account, accounts.vault_authority)
    {
        return Err(e);
    }
    accounts.escrow_account = None;
    Ok(())
}

} // verus!
