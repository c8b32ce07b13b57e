//! The exchange: a taker pays the initializer and draws on the deposit at the
//! record's rate.

use vstd::prelude::*;
use crate::address::Address;
use crate::context::Context;
use crate::error::ErrorCode;
use crate::pda::ProgramAddress;
use crate::pda::custody_authority;
use crate::pda::custody_bump;
use crate::pda::custody_seeds;
use crate::pda::derived;
use crate::state::RecordSlot;
use crate::token::TokenAccount;
use crate::token::Transfer;
use crate::token::transfer;
use crate::token::transfer_check;

verus! {

/// The accounts of an exchange.
#[derive(Clone, Copy, Debug, PartialEq, Eq)]
pub struct Exchange {
    /// The taker, who signs the instruction.
    pub taker: Address,
    /// The account that the taker pays from.
    pub taker_deposit_token_account: TokenAccount,
    /// The account that the taker receives into.
    pub taker_receive_token_account: TokenAccount,
    /// The deposit, in custody.
    pub pda_deposit_token_account: TokenAccount,
    /// The account that the initializer is paid into.
    pub initializer_receive_token_account: TokenAccount,
    /// The initializer.
    pub initializer_main_account: Address,
    /// The record of the escrow.
    pub escrow_account: RecordSlot,
    /// The custody authority.
    pub pda_account: Address,
}

/// The two transfers of an exchange, for the ledger to perform as one step.
#[derive(Clone, Copy, Debug, PartialEq, Eq)]
pub struct Settlement {
    /// From the deposit to the taker, authorised by the custody authority.
    pub to_taker: Transfer,
    /// What the taker receives: the rate times what the taker pays.
    pub taker_amount: u64,
    /// The bump with which the program authorises as the custody authority.
    pub bump_seed: u8,
    /// From the taker to the initializer, authorised by the taker.
    pub to_initializer: Transfer,
    /// What the taker pays.
    pub swap_amount: u64,
}

impl Exchange {
    /// Whether the four asset accounts are four accounts. The ledger hands an
    /// instruction no account twice; accounts that break this describe no
    /// state of a ledger.
    pub open spec fn distinct(self) -> bool {
        let paying = self.taker_deposit_token_account.key;
        let receiving = self.taker_receive_token_account.key;
        let deposit = self.pda_deposit_token_account.key;
        let proceeds = self.initializer_receive_token_account.key;
        &&& paying != receiving
        &&& paying != deposit
        &&& paying != proceeds
        &&& receiving != deposit
        &&& receiving != proceeds
        &&& deposit != proceeds
    }

    /// Tells whether the four asset accounts are four accounts.
    pub fn has_distinct_accounts(&self) -> (r: bool)
        ensures
            r == self.distinct(),
    {
        let paying = &self.taker_deposit_token_account.key;
        let receiving = &self.taker_receive_token_account.key;
        let deposit = &self.pda_deposit_token_account.key;
        let proceeds = &self.initializer_receive_token_account.key;
        *paying != *receiving && *paying != *deposit && *paying != *proceeds && *receiving
            != *deposit && *receiving != *proceeds && *deposit != *proceeds
    }

    /// The accounts of the transfer out of the deposit.
    pub fn into_transfer_to_taker_context(&self) -> (cpi: Transfer)
        ensures
            cpi == self.transfer_to_taker(),
    {
        Transfer {
            from: self.pda_deposit_token_account.key,
            to: self.taker_receive_token_account.key,
            authority: self.pda_account,
        }
    }

    /// The accounts of the taker's payment.
    pub fn into_transfer_to_initializer_context(&self) -> (cpi: Transfer)
        ensures
            cpi == self.transfer_to_initializer(),
    {
        Transfer {
            from: self.taker_deposit_token_account.key,
            to: self.initializer_receive_token_account.key,
            authority: self.taker,
        }
    }

    /// The transfer out of the deposit: to the taker, under the custody
    /// authority.
    pub open spec fn transfer_to_taker(self) -> Transfer {
        Transfer {
            from: self.pda_deposit_token_account.key,
            to: self.taker_receive_token_account.key,
            authority: self.pda_account,
        }
    }

    /// The taker's payment: to the initializer, under the taker.
    pub open spec fn transfer_to_initializer(self) -> Transfer {
        Transfer {
            from: self.taker_deposit_token_account.key,
            to: self.initializer_receive_token_account.key,
            authority: self.taker,
        }
    }

    /// What the taker receives for `swap_amount`: the record's rate times it.
    pub open spec fn taker_amount(self, swap_amount: u64) -> int {
        self.escrow_account.record->0.taker_rate * swap_amount
    }

    /// The first reason to reject an exchange of `swap_amount` on these
    /// accounts, if there is one. `record` is what the record's label derives,
    /// `custody` the custody authority derived.
    ///
    /// In order: the record must exist and live at the address its label
    /// derives; the taker must hold what it pays; the amount drawn must fit in
    /// 64 bits and the deposit must hold it; deposit, receiving account and
    /// initializer must be those on the record; the authority given must be
    /// the custody authority; and the ledger must accept both transfers.
    pub open spec fn settle_check(
        self,
        record: Option<ProgramAddress>,
        custody: Option<ProgramAddress>,
        swap_amount: u64,
    ) -> Option<ErrorCode> {
        match self.escrow_account.record {
            None => Some(ErrorCode::MissingRecord),
            Some(terms) => {
                if !self.escrow_account.is_at(record, terms.bumps.escrow_account) {
                    Some(ErrorCode::AddressMismatch)
                } else if swap_amount > self.taker_deposit_token_account.amount {
                    Some(ErrorCode::InsufficientBalance)
                } else if terms.taker_rate * swap_amount > u64::MAX {
                    Some(ErrorCode::ArithmeticOverflow)
                } else if terms.taker_rate * swap_amount > self.pda_deposit_token_account.amount {
                    Some(ErrorCode::InsufficientBalance)
                } else if terms.initializer_deposit_token_account
                    != self.pda_deposit_token_account.key {
                    Some(ErrorCode::IdentityMismatch)
                } else if terms.initializer_receive_token_account
                    != self.initializer_receive_token_account.key {
                    Some(ErrorCode::IdentityMismatch)
                } else if terms.initializer_key != self.initializer_main_account {
                    Some(ErrorCode::IdentityMismatch)
                } else if custody is None || custody->0.address != self.pda_account {
                    Some(ErrorCode::AddressMismatch)
                } else {
                    match transfer_check(
                        self.pda_deposit_token_account,
                        self.taker_receive_token_account,
                        self.pda_account,
                        (terms.taker_rate * swap_amount) as u64,
                    ) {
                        Some(e) => Some(e),
                        None => transfer_check(
                            self.taker_deposit_token_account,
                            self.initializer_receive_token_account,
                            self.taker,
                            swap_amount,
                        ),
                    }
                }
            },
        }
    }

    /// These accounts after an exchange of `swap_amount`: the deposit has paid
    /// the taker at the record's rate, the taker has paid the initializer, and
    /// nothing else has changed.
    pub open spec fn settled(self, swap_amount: u64) -> Exchange {
        let taker_amount = self.taker_amount(swap_amount) as u64;
        Exchange {
            taker_deposit_token_account: self.taker_deposit_token_account.debited(swap_amount),
            taker_receive_token_account: self.taker_receive_token_account.credited(taker_amount),
            pda_deposit_token_account: self.pda_deposit_token_account.debited(taker_amount),
            initializer_receive_token_account: self.initializer_receive_token_account.credited(
                swap_amount,
            ),
            ..self
        }
    }

    /// The transfers of an exchange of `swap_amount`, authorised with the
    /// custody authority's bump `bump_seed`.
    pub open spec fn settlement(self, bump_seed: u8, swap_amount: u64) -> Settlement {
        Settlement {
            to_taker: self.transfer_to_taker(),
            taker_amount: self.taker_amount(swap_amount) as u64,
            bump_seed,
            to_initializer: self.transfer_to_initializer(),
            swap_amount,
        }
    }

    /// Exchanges `swap_amount` on these accounts, where `record` is what the
    /// record's label derives and `custody` is the custody authority derived.
    /// Either every check passes and both transfers are made, or nothing
    /// changes.
    pub fn settle(
        &mut self,
        record: Option<ProgramAddress>,
        custody: Option<ProgramAddress>,
        swap_amount: u64,
    ) -> (r: Result<Settlement, ErrorCode>)
        ensures
            final(self).distinct() == old(self).distinct(),
            match r {
                Ok(done) => {
                    &&& old(self).settle_check(record, custody, swap_amount) is None
                    &&& *final(self) == old(self).settled(swap_amount)
                    &&& done == old(self).settlement(custody->0.bump, swap_amount)
                },
                Err(e) => {
                    &&& old(self).settle_check(record, custody, swap_amount) == Some(e)
                    &&& *final(self) == *old(self)
                },
            },
    {
        let terms = match self.escrow_account.record {
            Some(terms) => terms,
            None => {
                return Err(ErrorCode::MissingRecord);
            },
        };
        if !self.escrow_account.at(&record, terms.bumps.escrow_account) {
            return Err(ErrorCode::AddressMismatch);
        }
        if swap_amount > self.taker_deposit_token_account.amount {
            return Err(ErrorCode::InsufficientBalance);
        }
        let taker_amount = match terms.taker_rate.checked_mul(swap_amount) {
            Some(taker_amount) => taker_amount,
            None => {
                return Err(ErrorCode::ArithmeticOverflow);
            },
        };
        if taker_amount > self.pda_deposit_token_account.amount {
            return Err(ErrorCode::InsufficientBalance);
        }
        if terms.initializer_deposit_token_account != self.pda_deposit_token_account.key {
            return Err(ErrorCode::IdentityMismatch);
        }
        if terms.initializer_receive_token_account != self.initializer_receive_token_account.key {
            return Err(ErrorCode::IdentityMismatch);
        }
        if terms.initializer_key != self.initializer_main_account {
            return Err(ErrorCode::IdentityMismatch);
        }
        let bump_seed = match custody {
            Some(found) => {
                if found.address != self.pda_account {
                    return Err(ErrorCode::AddressMismatch);
                }
                found.bump
            },
            None => {
                return Err(ErrorCode::AddressMismatch);
            },
        };
        let to_taker = self.into_transfer_to_taker_context();
        let to_initializer = self.into_transfer_to_initializer_context();
        let mut next = *self;
        match transfer(
            &mut next.pda_deposit_token_account,
            &mut next.taker_receive_token_account,
            &to_taker.authority,
            taker_amount,
        ) {
            Ok(_) => {},
            Err(e) => {
                return Err(e);
            },
        }
        match transfer(
            &mut next.taker_deposit_token_account,
            &mut next.initializer_receive_token_account,
            &to_initializer.authority,
            swap_amount,
        ) {
            Ok(_) => {},
            Err(e) => {
                return Err(e);
            },
        }
        *self = next;
        Ok(Settlement { to_taker, taker_amount, bump_seed, to_initializer, swap_amount })
    }
}

/// The first reason to reject an exchange of `swap_amount` under `ctx`, if
/// there is one: `settle_check`, with the addresses that the program of `ctx`
/// derives.
pub open spec fn exchange_check(ctx: Context<Exchange>, swap_amount: u64) -> Option<ErrorCode> {
    ctx.accounts.settle_check(
        ctx.accounts.escrow_account.derivation(ctx.program_id),
        derived(custody_seeds(), ctx.program_id),
        swap_amount,
    )
}

/// What `ctx` holds after the exchange of `swap_amount` that `exchange_check`
/// admits.
pub open spec fn exchanged(ctx: Context<Exchange>, swap_amount: u64) -> Context<Exchange> {
    Context { program_id: ctx.program_id, accounts: ctx.accounts.settled(swap_amount) }
}

/// The taker pays `swap_amount` into the initializer's receiving account and
/// receives the record's rate times `swap_amount` from the deposit.
///
/// The record stays as it is and stays open: an escrow can be exchanged
/// against until the deposit is used up or the initializer cancels. Where any
/// check fails, no balance changes.
pub fn exchange(ctx: &mut Context<Exchange>, swap_amount: u64) -> (r: Result<
    Settlement,
    ErrorCode,
>)
    ensures
        final(ctx).accounts.escrow_account == old(ctx).accounts.escrow_account,
        old(ctx).accounts.taker_amount(swap_amount) > old(
            ctx,
        ).accounts.pda_deposit_token_account.amount ==> r is Err,
        match r {
            Ok(done) => {
                &&& exchange_check(*old(ctx), swap_amount) is None
                &&& *final(ctx) == exchanged(*old(ctx), swap_amount)
                &&& done == old(ctx).accounts.settlement(
                    custody_bump(old(ctx).program_id),
                    swap_amount,
                )
            },
            Err(e) => {
                &&& exchange_check(*old(ctx), swap_amount) == Some(e)
                &&& *final(ctx) == *old(ctx)
            },
        },
{
    let record = ctx.accounts.escrow_account.derive(&ctx.program_id);
    let custody = custody_authority(&ctx.program_id);
    ctx.accounts.settle(record, custody, swap_amount)
}

} // verus!
