//! Cancelling an escrow: both accounts go back to the initializer and the
//! record is removed.

use vstd::prelude::*;
use crate::address::Address;
use crate::context::Context;
use crate::error::ErrorCode;
use crate::pda::ProgramAddress;
use crate::pda::custody_authority;
use crate::pda::custody_bump;
use crate::pda::custody_seeds;
use crate::pda::derived;
use crate::state::RecordSlot;
use crate::token::SetAuthority;
use crate::token::TokenAccount;
use crate::token::set_authority;
use crate::token::set_authority_check;

verus! {

/// The accounts of a cancellation.
#[derive(Clone, Copy, Debug, PartialEq, Eq)]
pub struct CancelEscrow {
    /// The initializer. A cancellation does not ask for the initializer's
    /// signature: whoever names the initializer can cancel, and the accounts
    /// go to the initializer whoever cancels.
    pub initializer: Address,
    /// The deposit, in custody.
    pub pda_deposit_token_account: TokenAccount,
    /// The receiving account, in custody. It is not compared with the record:
    /// whichever account in custody is named here goes to the initializer.
    pub pda_receive_token_account: TokenAccount,
    /// The custody authority.
    pub pda_account: Address,
    /// The record of the escrow.
    pub escrow_account: RecordSlot,
}

/// What releases an escrow, for the ledger to perform as one step: two
/// changes of owner, both authorised by the custody authority, and the
/// closing of the record's account.
#[derive(Clone, Copy, Debug, PartialEq, Eq)]
pub struct Release {
    /// The deposit account and its present owner.
    pub deposit: SetAuthority,
    /// The receiving account and its present owner.
    pub receive: SetAuthority,
    /// The initializer, who owns both afterwards.
    pub new_authority: Address,
    /// The bump with which the program authorises as the custody authority.
    pub bump_seed: u8,
    /// Who receives the storage deposit of the record's account, which is
    /// closed: the initializer.
    pub refund_to: Address,
}

impl CancelEscrow {
    /// Whether the two asset accounts are two accounts. The ledger hands an
    /// instruction no account twice; accounts that break this describe no
    /// state of a ledger.
    pub open spec fn distinct(self) -> bool {
        self.pda_deposit_token_account.key != self.pda_receive_token_account.key
    }

    /// Tells whether the two asset accounts are two accounts.
    pub fn has_distinct_accounts(&self) -> (r: bool)
        ensures
            r == self.distinct(),
    {
        self.pda_deposit_token_account.key != self.pda_receive_token_account.key
    }

    /// The accounts of the deposit's change of owner.
    pub fn into_set_deposit_authority_context(&self) -> (cpi: SetAuthority)
        ensures
            cpi == self.set_deposit_authority(),
    {
        SetAuthority {
            account_or_mint: self.pda_deposit_token_account.key,
            current_authority: self.pda_account,
        }
    }

    /// The accounts of the receiving account's change of owner.
    pub fn into_set_receive_authority_context(&self) -> (cpi: SetAuthority)
        ensures
            cpi == self.set_receive_authority(),
    {
        SetAuthority {
            account_or_mint: self.pda_receive_token_account.key,
            current_authority: self.pda_account,
        }
    }

    /// The deposit's change of owner: authorised by the custody authority.
    pub open spec fn set_deposit_authority(self) -> SetAuthority {
        SetAuthority {
            account_or_mint: self.pda_deposit_token_account.key,
            current_authority: self.pda_account,
        }
    }

    /// The receiving account's change of owner: authorised by the custody
    /// authority.
    pub open spec fn set_receive_authority(self) -> SetAuthority {
        SetAuthority {
            account_or_mint: self.pda_receive_token_account.key,
            current_authority: self.pda_account,
        }
    }

    /// The first reason to reject a cancellation on these accounts, if there
    /// is one. `record` is what the record's label derives, `custody` the
    /// custody authority derived.
    ///
    /// In order: the record must exist and live at the address its label
    /// derives; initializer and deposit must be those on the record; the
    /// authority given must be the custody authority; and the ledger must
    /// accept both changes of owner.
    pub open spec fn close_check(
        self,
        record: Option<ProgramAddress>,
        custody: Option<ProgramAddress>,
    ) -> Option<ErrorCode> {
        match self.escrow_account.record {
            None => Some(ErrorCode::MissingRecord),
            Some(terms) => {
                if !self.escrow_account.is_at(record, terms.bumps.escrow_account) {
                    Some(ErrorCode::AddressMismatch)
                } else if terms.initializer_key != self.initializer {
                    Some(ErrorCode::IdentityMismatch)
                } else if terms.initializer_deposit_token_account
                    != self.pda_deposit_token_account.key {
                    Some(ErrorCode::IdentityMismatch)
                } else if custody is None || custody->0.address != self.pda_account {
                    Some(ErrorCode::AddressMismatch)
                } else {
                    match set_authority_check(self.pda_deposit_token_account, self.pda_account) {
                        Some(e) => Some(e),
                        None => set_authority_check(
                            self.pda_receive_token_account,
                            self.pda_account,
                        ),
                    }
                }
            },
        }
    }

    /// These accounts after a cancellation: both accounts are the
    /// initializer's, and the record is gone.
    pub open spec fn closed(self) -> CancelEscrow {
        let initializer = self.escrow_account.record->0.initializer_key;
        CancelEscrow {
            pda_deposit_token_account: self.pda_deposit_token_account.owned_by(initializer),
            pda_receive_token_account: self.pda_receive_token_account.owned_by(initializer),
            escrow_account: RecordSlot { key: self.escrow_account.key, record: None },
            ..self
        }
    }

    /// The changes of owner of a cancellation, authorised with the custody
    /// authority's bump `bump_seed`.
    pub open spec fn release(self, bump_seed: u8) -> Release {
        Release {
            deposit: self.set_deposit_authority(),
            receive: self.set_receive_authority(),
            new_authority: self.escrow_account.record->0.initializer_key,
            bump_seed,
            refund_to: self.escrow_account.record->0.initializer_key,
        }
    }

    /// Cancels the escrow on these accounts, where `record` is what the
    /// record's label derives and `custody` is the custody authority derived.
    /// Either every check passes, both accounts change owner and the record is
    /// removed, or nothing changes.
    pub fn close(&mut self, record: Option<ProgramAddress>, custody: Option<ProgramAddress>) -> (r:
        Result<Release, ErrorCode>)
        ensures
            final(self).distinct() == old(self).distinct(),
            match r {
                Ok(plan) => {
                    &&& old(self).close_check(record, custody) is None
                    &&& *final(self) == old(self).closed()
                    &&& plan == old(self).release(custody->0.bump)
                },
                Err(e) => {
                    &&& old(self).close_check(record, custody) == Some(e)
                    &&& *final(self) == *old(self)
                },
            },
    {
        let terms = match self.escrow_account.record {
            Some(terms) => terms,
            None => {
                return Err(ErrorCode::MissingRecord);
            },
        };
        if !self.escrow_account.at(&record, terms.bumps.escrow_account) {
            return Err(ErrorCode::AddressMismatch);
        }
        if terms.initializer_key != self.initializer {
            return Err(ErrorCode::IdentityMismatch);
        }
        if terms.initializer_deposit_token_account != self.pda_deposit_token_account.key {
            return Err(ErrorCode::IdentityMismatch);
        }
        let bump_seed = match custody {
            Some(found) => {
                if found.address != self.pda_account {
                    return Err(ErrorCode::AddressMismatch);
                }
                found.bump
            },
            None => {
                return Err(ErrorCode::AddressMismatch);
            },
        };
        let deposit = self.into_set_deposit_authority_context();
        let receive = self.into_set_receive_authority_context();
        let mut next = *self;
        match set_authority(
            &mut next.pda_deposit_token_account,
            &deposit.current_authority,
            terms.initializer_key,
        ) {
            Ok(_) => {},
            Err(e) => {
                return Err(e);
            },
        }
        match set_authority(
            &mut next.pda_receive_token_account,
            &receive.current_authority,
            terms.initializer_key,
        ) {
            Ok(_) => {},
            Err(e) => {
                return Err(e);
            },
        }
        next.escrow_account.record = None;
        *self = next;
        Ok(
            Release {
                deposit,
                receive,
                new_authority: terms.initializer_key,
                bump_seed,
                refund_to: terms.initializer_key,
            },
        )
    }
}

/// The first reason to reject a cancellation under `ctx`, if there is one:
/// `close_check`, with the addresses that the program of `ctx` derives.
pub open spec fn cancel_check(ctx: Context<CancelEscrow>) -> Option<ErrorCode> {
    ctx.accounts.close_check(
        ctx.accounts.escrow_account.derivation(ctx.program_id),
        derived(custody_seeds(), ctx.program_id),
    )
}

/// What `ctx` holds after the cancellation that `cancel_check` admits.
pub open spec fn cancelled(ctx: Context<CancelEscrow>) -> Context<CancelEscrow> {
    Context { program_id: ctx.program_id, accounts: ctx.accounts.closed() }
}

/// Cancels an escrow: hands both accounts back to the initializer on the
/// record and removes the record, so that its label is free for a new escrow.
pub fn cancel_escrow(ctx: &mut Context<CancelEscrow>) -> (r: Result<Release, ErrorCode>)
    ensures
        match r {
            Ok(plan) => {
                &&& cancel_check(*old(ctx)) is None
                &&& *final(ctx) == cancelled(*old(ctx))
                &&& plan == old(ctx).accounts.release(custody_bump(old(ctx).program_id))
            },
            Err(e) => {
                &&& cancel_check(*old(ctx)) == Some(e)
                &&& *final(ctx) == *old(ctx)
            },
        },
{
    let record = ctx.accounts.escrow_account.derive(&ctx.program_id);
    let custody = custody_authority(&ctx.program_id);
    ctx.accounts.close(record, custody)
}

} // verus!
