//! Creation of an escrow: the initializer locks a deposit into a custody
//! account controlled by the program authority and records the terms of the
//! trade.

use vstd::prelude::*;

use crate::account::{EscrowAccount, TokenAccount};
use crate::error::EscrowError;
use crate::token_ledger;

verus! {

/// The accounts an Initialize call supplies: the initializer (who must
/// co-sign), the asset being deposited, a freshly created empty custody
/// account still owned by the initializer, the initializer's funded source
/// account, the account to be credited with the counter-asset on settlement,
/// and an uninitialized escrow-record slot.
#[derive(Clone, Copy, Debug)]
pub struct Initialize {
    /// Identity of the party creating the trade.
    pub initializer: u64,
    /// Whether the initializer co-signed the call.
    pub initializer_signed: bool,
    /// The asset the initializer deposits.
    pub mint: u64,
    /// Freshly created custody account; empty and owned by the initializer.
    pub vault_account: TokenAccount,
    /// The initializer's funded source account, debited at creation.
    pub initializer_deposit_token_account: TokenAccount,
    /// The initializer's account for the counter-asset on settlement.
    pub initializer_receive_token_account: TokenAccount,
    /// The escrow-record slot; must be uninitialized.
    pub escrow_account: Option<EscrowAccount>,
}

/// Initialize is accepted exactly when the record slot is free, the
/// initializer co-signed, the source account covers the deposit, and the
/// custody account is a fresh empty account of the stated asset that the
/// ledger will let the initializer reassign and fund: it and the source
/// account hold the stated mint and are controlled by the initializer.
pub open spec fn initialize_allowed(a: Initialize, i_amount: u64) -> bool {
    &&& a.escrow_account is None
    &&& a.initializer_signed
    &&& i_amount <= a.initializer_deposit_token_account.amount
    &&& a.vault_account.amount == 0
    &&& a.vault_account.mint == a.mint
    &&& a.initializer_deposit_token_account.mint == a.mint
    &&& a.vault_account.owner == a.initializer
    &&& a.initializer_deposit_token_account.owner == a.initializer
}

/// The failure class of a rejected Initialize: an occupied record slot, an
/// insufficient source balance or a non-empty custody account violate a
/// precondition; a missing co-signature is an authorization failure; a mint
/// mismatch or a custody or source account outside the initializer's control
/// would make the ledger's reassign or transfer fail.
pub open spec fn initialize_error(a: Initialize, i_amount: u64) -> EscrowError {
    if !(a.escrow_account is None) {
        EscrowError::PreconditionViolation
    } else if !a.initializer_signed {
        EscrowError::AuthorizationFailure
    } else if !(i_amount <= a.initializer_deposit_token_account.amount) {
        EscrowError::PreconditionViolation
    } else if !(a.vault_account.amount == 0) {
        EscrowError::PreconditionViolation
    } else {
        EscrowError::LedgerOperationFailure
    }
}

/// The record an accepted Initialize writes: the initializer's identity and
/// two account references, and the two amounts fixed for the record's whole
/// lifetime.
pub open spec fn initialize_record(a: Initialize, i_amount: u64, t_amount: u64) -> EscrowAccount {
    EscrowAccount {
        initializer_key: a.initializer,
        initializer_deposit_token_account: a.initializer_deposit_token_account.key,
        initializer_receive_token_account: a.initializer_receive_token_account.key,
        i_amount,
        t_amount,
    }
}

/// The state an accepted Initialize leaves: the record slot filled, custody
/// of the deposit handed to the program authority, and the deposit moved
/// from the source account into the custody account.
pub open spec fn initialize_effect(
    a: Initialize,
    vault_authority: u64,
    i_amount: u64,
    t_amount: u64,
) -> Initialize {
    Initialize {
        escrow_account: Some(initialize_record(a, i_amount, t_amount)),
        vault_account: TokenAccount {
            owner: vault_authority,
            amount: i_amount,
            ..a.vault_account
        },
        initializer_deposit_token_account: TokenAccount {
            amount: (a.initializer_deposit_token_account.amount - i_amount) as u64,
            ..a.initializer_deposit_token_account
        },
        ..a
    }
}

/// Create an escrow: populate the record from the inputs, reassign the
/// custody account to the program authority `vault_authority`, and move
/// `i_amount` units from the initializer's source account into custody,
/// demanding `t_amount` of the counter-asset in return.
///
/// The operation is all-or-nothing: it is accepted exactly when
/// `initialize_allowed` holds of the supplied accounts, every listed effect
/// then occurs, and a rejected call reports its failure class and leaves
/// every account exactly as it was.
pub fn initialize(
    accounts: &mut Initialize,
    vault_authority: u64,
    i_amount: u64,
    t_amount: u64,
) -> (r: Result<(), EscrowError>)
    ensures
        r is Ok <==> initialize_allowed(*old(accounts), i_amount),
        r is Ok ==> *final(accounts) == initialize_effect(
            *old(accounts),
            vault_authority,
            i_amount,
            t_amount,
        ),
        r is Err ==> *final(accounts) == *old(accounts),
        r is Err ==> r == Err::<(), EscrowError>(initialize_error(*old(accounts), i_amount)),
{
    if accounts.escrow_account.is_some() {
        return Err(EscrowError::PreconditionViolation);
    }
    if !accounts.initializer_signed {
        return Err(EscrowError::AuthorizationFailure);
    }
    if accounts.initializer_deposit_token_account.amount < i_amount {
        return Err(EscrowError::PreconditionViolation);
    }
    if accounts.vault_account.amount != 0 {
        return Err(EscrowError::PreconditionViolation);
    }
    if accounts.vault_account.mint != accounts.mint
        || accounts.initializer_deposit_token_account.mint != accounts.mint
        || accounts.vault_account.owner != accounts.initializer
        || accounts.initializer_deposit_token_account.owner != accounts.initializer
    {
        return Err(EscrowError::LedgerOperationFailure);
    }

    accounts.escrow_account = Some(EscrowAccount {
        initializer_key: accounts.initializer,
        initializer_deposit_token_account: accounts.initializer_deposit_token_account.key,
        initializer_receive_token_account: accounts.initializer_receive_token_account.key,
        i_amount,
        t_amount,
    });
    if let Err(e) = token_ledger::set_authority(
        &mut accounts.vault_account,
        accounts.initializer,
        vault_authority,
    ) {
        return Err(e);
    }
    if let Err(e) = token_ledger::transfer(
        &mut accounts.initializer_deposit_token_account,
        &mut accounts.vault_account,
        accounts.initializer,
        i_amount,
    ) {
        return Err(e);
    }
    Ok(())
}

} // verus!
