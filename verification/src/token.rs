//! The custody primitive as the escrow sees it: accounts that hold a balance
//! under an owner, and the two owner-gated operations on them.
//!
//! The ledger performs these operations; what stands here is what they do to
//! the accounts an instruction was given, so that an instruction's outcome
//! can be stated and checked without a ledger.

use vstd::prelude::*;
use crate::address::Address;
use crate::error::ErrorCode;

verus! {

/// An asset account: a balance, and the owner who alone may authorise moving
/// it or handing the account on.
#[derive(Clone, Copy, Debug, PartialEq, Eq)]
pub struct TokenAccount {
    pub key: Address,
    pub owner: Address,
    pub amount: u64,
}

/// The accounts of a set-owner operation.
#[derive(Clone, Copy, Debug, PartialEq, Eq)]
pub struct SetAuthority {
    pub account_or_mint: Address,
    pub current_authority: Address,
}

/// The accounts of a transfer.
#[derive(Clone, Copy, Debug, PartialEq, Eq)]
pub struct Transfer {
    pub from: Address,
    pub to: Address,
    pub authority: Address,
}

impl TokenAccount {
    /// This account in the hands of `owner`.
    pub open spec fn owned_by(self, owner: Address) -> TokenAccount {
        TokenAccount { owner, ..self }
    }

    /// This account with `amount` taken out.
    pub open spec fn debited(self, amount: u64) -> TokenAccount
        recommends
            amount <= self.amount,
    {
        TokenAccount { amount: (self.amount - amount) as u64, ..self }
    }

    /// This account with `amount` paid in.
    pub open spec fn credited(self, amount: u64) -> TokenAccount
        recommends
            self.amount + amount <= u64::MAX,
    {
        TokenAccount { amount: (self.amount + amount) as u64, ..self }
    }
}

/// Why the ledger would refuse to hand `account` on under `current_authority`,
/// if it would.
pub open spec fn set_authority_check(account: TokenAccount, current_authority: Address) -> Option<
    ErrorCode,
> {
    if account.owner != current_authority {
        Some(ErrorCode::Unauthorized)
    } else {
        None
    }
}

/// Why the ledger would refuse to move `amount` from `from` to `to` under
/// `authority`, if it would.
pub open spec fn transfer_check(
    from: TokenAccount,
    to: TokenAccount,
    authority: Address,
    amount: u64,
) -> Option<ErrorCode> {
    if from.owner != authority {
        Some(ErrorCode::Unauthorized)
    } else if from.amount < amount {
        Some(ErrorCode::InsufficientBalance)
    } else if to.amount + amount > u64::MAX {
        Some(ErrorCode::ArithmeticOverflow)
    } else {
        None
    }
}

/// Hands `account` on to `new_authority`. Only the account's owner can do so.
pub fn set_authority(
    account: &mut TokenAccount,
    current_authority: &Address,
    new_authority: Address,
) -> (r: Result<(), ErrorCode>)
    ensures
        match r {
            Ok(_) => {
                &&& set_authority_check(*old(account), *current_authority) is None
                &&& *final(account) == old(account).owned_by(new_authority)
            },
            Err(e) => {
                &&& set_authority_check(*old(account), *current_authority) == Some(e)
                &&& *final(account) == *old(account)
            },
        },
{
    if account.owner != *current_authority {
        return Err(ErrorCode::Unauthorized);
    }
    account.owner = new_authority;
    Ok(())
}

/// Moves `amount` from `from` to `to`. Only the owner of `from` can do so, and
/// only what `from` holds and `to` has room for.
pub fn transfer(
    from: &mut TokenAccount,
    to: &mut TokenAccount,
    authority: &Address,
    amount: u64,
) -> (r: Result<(), ErrorCode>)
    ensures
        match r {
            Ok(_) => {
                &&& transfer_check(*old(from), *old(to), *authority, amount) is None
                &&& *final(from) == old(from).debited(amount)
                &&& *final(to) == old(to).credited(amount)
            },
            Err(e) => {
                &&& transfer_check(*old(from), *old(to), *authority, amount) == Some(e)
                &&& *final(from) == *old(from)
                &&& *final(to) == *old(to)
            },
        },
{
    if from.owner != *authority {
        return Err(ErrorCode::Unauthorized);
    }
    if from.amount < amount {
        return Err(ErrorCode::InsufficientBalance);
    }
    match to.amount.checked_add(amount) {
        Some(credited) => {
            from.amount = from.amount - amount;
            to.amount = credited;
            Ok(())
        },
        None => Err(ErrorCode::ArithmeticOverflow),
    }
}

} // verus!
