//! Model of the external token ledger that the escrow drives: moving
//! balances, reassigning account authority, and closing drained accounts.
//!
//! Each primitive either performs its whole effect or rejects the call and
//! leaves every account untouched, mirroring the all-or-nothing commitment
//! of the hosting substrate.

use vstd::prelude::*;

use crate::account::TokenAccount;
use crate::error::EscrowError;

verus! {

/// A transfer is accepted exactly when the stated authority controls the
/// source, the source balance suffices, both accounts hold the same asset,
/// and the destination balance cannot overflow.
pub open spec fn transfer_allowed(
    from: TokenAccount,
    to: TokenAccount,
    authority: u64,
    amount: u64,
) -> bool {
    &&& from.owner == authority
    &&& amount <= from.amount
    &&& from.mint == to.mint
    &&& to.amount + amount <= u64::MAX
}

/// Move `amount` units from `from` to `to` under the stated authority.
pub fn transfer(
    from: &mut TokenAccount,
    to: &mut TokenAccount,
    authority: u64,
    amount: u64,
) -> (r: Result<(), EscrowError>)
    ensures
        r is Ok <==> transfer_allowed(*old(from), *old(to), authority, amount),
        r is Ok ==> *final(from) == (TokenAccount {
            amount: (old(from).amount - amount) as u64,
            ..*old(from)
        }),
        r is Ok ==> *final(to) == (TokenAccount {
            amount: (old(to).amount + amount) as u64,
            ..*old(to)
        }),
        r is Err ==> *final(from) == *old(from) && *final(to) == *old(to),
        r is Err ==> r == Err::<(), EscrowError>(EscrowError::LedgerOperationFailure),
{
    if from.owner != authority
        || from.amount < amount
        || from.mint != to.mint
        || to.amount > u64::MAX - amount
    {
        return Err(EscrowError::LedgerOperationFailure);
    }
    from.amount = from.amount - amount;
    to.amount = to.amount + amount;
    Ok(())
}

/// Hand control of `account` from `current_authority` to `new_authority`;
/// rejected unless `current_authority` controls the account now.
pub fn set_authority(
    account: &mut TokenAccount,
    current_authority: u64,
    new_authority: u64,
) -> (r: Result<(), EscrowError>)
    ensures
        r is Ok <==> old(account).owner == current_authority,
        r is Ok ==> *final(account) == (TokenAccount { owner: new_authority, ..*old(account) }),
        r is Err ==> *final(account) == *old(account),
        r is Err ==> r == Err::<(), EscrowError>(EscrowError::LedgerOperationFailure),
{
    if account.owner != current_authority {
        return Err(EscrowError::LedgerOperationFailure);
    }
    account.owner = new_authority;
    Ok(())
}

/// Close a drained account: accepted exactly when the stated authority
/// controls it and its token balance is zero. The reserve the substrate
/// returns to the destination is native rent, outside the token model, so
/// the account's token fields are left as they are.
pub fn close_account(account: &TokenAccount, authority: u64) -> (r: Result<(), EscrowError>)
    ensures
        r is Ok <==> account.owner == authority && account.amount == 0,
        r is Err ==> r == Err::<(), EscrowError>(EscrowError::LedgerOperationFailure),
{
    if account.owner != authority || account.amount != 0 {
        return Err(EscrowError::LedgerOperationFailure);
    }
    Ok(())
}

} // verus!
