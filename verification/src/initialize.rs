//! Opening an escrow: the terms are recorded and both of the initializer's
//! accounts go into custody.

use vstd::prelude::*;
use vstd::utf8::encode_utf8;
use crate::address::Address;
use crate::context::Context;
use crate::error::ErrorCode;
use crate::pda::ProgramAddress;
use crate::pda::custody_authority;
use crate::pda::custody_of;
use crate::pda::custody_seeds;
use crate::pda::derived;
use crate::pda::record_address;
use crate::pda::record_seeds;
use crate::state::EscrowAccount;
use crate::state::RecordSlot;
use crate::state::StateBumps;
use crate::state::NAME_LEN;
use crate::state::name_tag;
use crate::state::pad_name;
use crate::state::padded;
use crate::token::SetAuthority;
use crate::token::TokenAccount;
use crate::token::set_authority;
use crate::token::set_authority_check;

verus! {

/// The accounts of an initialization.
#[derive(Clone, Copy, Debug, PartialEq, Eq)]
pub struct InitializeEscrow {
    /// The initializer, who signs the instruction.
    pub initializer: Address,
    /// The account that supplies the locked asset.
    pub initializer_deposit_token_account: TokenAccount,
    /// The account that takers will pay into.
    pub initializer_receive_token_account: TokenAccount,
    /// Where the record is to be created.
    pub escrow_account: RecordSlot,
}

/// What opens an escrow, for the ledger to perform as one step: the creation
/// of the record's account, and two changes of owner that put the escrow's
/// accounts into custody. The initializer authorises both and pays.
#[derive(Clone, Copy, Debug, PartialEq, Eq)]
pub struct Handover {
    /// Who pays the storage deposit of the record's account: the initializer.
    pub payer: Address,
    /// The deposit account and its present owner.
    pub deposit: SetAuthority,
    /// The receiving account and its present owner.
    pub receive: SetAuthority,
    /// The custody authority, which owns both afterwards.
    pub new_authority: Address,
}

impl InitializeEscrow {
    /// Whether the two asset accounts are two accounts. The ledger hands an
    /// instruction no account twice; accounts that break this describe no
    /// state of a ledger.
    pub open spec fn distinct(self) -> bool {
        self.initializer_deposit_token_account.key != self.initializer_receive_token_account.key
    }

    /// Tells whether the two asset accounts are two accounts.
    pub fn has_distinct_accounts(&self) -> (r: bool)
        ensures
            r == self.distinct(),
    {
        self.initializer_deposit_token_account.key != self.initializer_receive_token_account.key
    }

    /// The accounts of the deposit's change of owner.
    pub fn into_set_deposit_token_context(&self) -> (cpi: SetAuthority)
        ensures
            cpi == self.set_deposit_authority(),
    {
        SetAuthority {
            account_or_mint: self.initializer_deposit_token_account.key,
            current_authority: self.initializer,
        }
    }

    /// The accounts of the receiving account's change of owner.
    pub fn into_set_receive_token_context(&self) -> (cpi: SetAuthority)
        ensures
            cpi == self.set_receive_authority(),
    {
        SetAuthority {
            account_or_mint: self.initializer_receive_token_account.key,
            current_authority: self.initializer,
        }
    }

    /// The deposit's change of owner: authorised by the initializer.
    pub open spec fn set_deposit_authority(self) -> SetAuthority {
        SetAuthority {
            account_or_mint: self.initializer_deposit_token_account.key,
            current_authority: self.initializer,
        }
    }

    /// The receiving account's change of owner: authorised by the initializer.
    pub open spec fn set_receive_authority(self) -> SetAuthority {
        SetAuthority {
            account_or_mint: self.initializer_receive_token_account.key,
            current_authority: self.initializer,
        }
    }

    /// The record that an initialization with these accounts writes.
    pub open spec fn terms(
        self,
        initializer_amount: u64,
        taker_rate: u64,
        bumps: StateBumps,
        state_seed_name: [u8; 10],
    ) -> EscrowAccount {
        EscrowAccount {
            initializer_key: self.initializer,
            initializer_deposit_token_account: self.initializer_deposit_token_account.key,
            initializer_receive_token_account: self.initializer_receive_token_account.key,
            initializer_amount,
            taker_rate,
            state_seed_name,
            bumps,
        }
    }

    /// The first reason to reject an initialization on these accounts, if
    /// there is one. `record` is what the label derives, `custody` the custody
    /// authority derived.
    ///
    /// In order: the record's address must be the one its label derives, with
    /// the bump supplied; no record may live there yet; the deposit must hold
    /// the declared amount; a custody authority must exist; and the ledger
    /// must accept both changes of owner.
    pub open spec fn open_check(
        self,
        record: Option<ProgramAddress>,
        custody: Option<ProgramAddress>,
        initializer_amount: u64,
        bumps: StateBumps,
    ) -> Option<ErrorCode> {
        if !self.escrow_account.is_at(record, bumps.escrow_account) {
            Some(ErrorCode::AddressMismatch)
        } else if self.escrow_account.record is Some {
            Some(ErrorCode::DuplicateRecord)
        } else if self.initializer_deposit_token_account.amount < initializer_amount {
            Some(ErrorCode::InsufficientBalance)
        } else if custody is None {
            Some(ErrorCode::AddressMismatch)
        } else {
            match set_authority_check(self.initializer_deposit_token_account, self.initializer) {
                Some(e) => Some(e),
                None => set_authority_check(
                    self.initializer_receive_token_account,
                    self.initializer,
                ),
            }
        }
    }

    /// These accounts after an initialization: the record is written, and the
    /// whole of both accounts, not the declared amount alone, is in the hands
    /// of `custody`.
    pub open spec fn opened(
        self,
        custody: Address,
        initializer_amount: u64,
        taker_rate: u64,
        bumps: StateBumps,
        state_seed_name: [u8; 10],
    ) -> InitializeEscrow {
        InitializeEscrow {
            initializer: self.initializer,
            initializer_deposit_token_account: self.initializer_deposit_token_account.owned_by(
                custody,
            ),
            initializer_receive_token_account: self.initializer_receive_token_account.owned_by(
                custody,
            ),
            escrow_account: RecordSlot {
                key: self.escrow_account.key,
                record: Some(self.terms(initializer_amount, taker_rate, bumps, state_seed_name)),
            },
        }
    }

    /// The changes of owner of an initialization that hands over to `custody`.
    pub open spec fn handover(self, custody: Address) -> Handover {
        Handover {
            payer: self.initializer,
            deposit: self.set_deposit_authority(),
            receive: self.set_receive_authority(),
            new_authority: custody,
        }
    }

    /// Opens an escrow on these accounts under the padded label
    /// `state_seed_name`, where `record` is what the label derives and
    /// `custody` is the custody authority derived. Either every check passes,
    /// the record is written and both accounts change owner, or nothing
    /// changes.
    pub fn open(
        &mut self,
        record: Option<ProgramAddress>,
        custody: Option<ProgramAddress>,
        initializer_amount: u64,
        taker_rate: u64,
        bumps: StateBumps,
        state_seed_name: [u8; 10],
    ) -> (r: Result<Handover, ErrorCode>)
        ensures
            final(self).distinct() == old(self).distinct(),
            match r {
                Ok(plan) => {
                    &&& old(self).open_check(record, custody, initializer_amount, bumps) is None
                    &&& *final(self) == old(self).opened(
                        custody->0.address,
                        initializer_amount,
                        taker_rate,
                        bumps,
                        state_seed_name,
                    )
                    &&& plan == old(self).handover(custody->0.address)
                },
                Err(e) => {
                    &&& old(self).open_check(record, custody, initializer_amount, bumps) == Some(e)
                    &&& *final(self) == *old(self)
                },
            },
    {
        if !self.escrow_account.at(&record, bumps.escrow_account) {
            return Err(ErrorCode::AddressMismatch);
        }
        if self.escrow_account.record.is_some() {
            return Err(ErrorCode::DuplicateRecord);
        }
        if self.initializer_deposit_token_account.amount < initializer_amount {
            return Err(ErrorCode::InsufficientBalance);
        }
        let pda = match custody {
            Some(found) => found.address,
            None => {
                return Err(ErrorCode::AddressMismatch);
            },
        };
        let deposit = self.into_set_deposit_token_context();
        let receive = self.into_set_receive_token_context();
        let mut next = *self;
        next.escrow_account.record = Some(
            EscrowAccount {
                initializer_key: self.initializer,
                initializer_deposit_token_account: self.initializer_deposit_token_account.key,
                initializer_receive_token_account: self.initializer_receive_token_account.key,
                initializer_amount,
                taker_rate,
                state_seed_name,
                bumps,
            },
        );
        match set_authority(
            &mut next.initializer_deposit_token_account,
            &deposit.current_authority,
            pda,
        ) {
            Ok(_) => {},
            Err(e) => {
                return Err(e);
            },
        }
        match set_authority(
            &mut next.initializer_receive_token_account,
            &receive.current_authority,
            pda,
        ) {
            Ok(_) => {},
            Err(e) => {
                return Err(e);
            },
        }
        *self = next;
        Ok(Handover { payer: self.initializer, deposit, receive, new_authority: pda })
    }
}

/// The first reason to reject an initialization under `ctx` with the label
/// `name`, if there is one: `open_check`, with the addresses that the program
/// of `ctx` derives.
pub open spec fn initialize_check(
    ctx: Context<InitializeEscrow>,
    initializer_amount: u64,
    bumps: StateBumps,
    name: Seq<u8>,
) -> Option<ErrorCode> {
    ctx.accounts.open_check(
        derived(record_seeds(padded(name)), ctx.program_id),
        derived(custody_seeds(), ctx.program_id),
        initializer_amount,
        bumps,
    )
}

/// What `ctx` holds after the initialization that `initialize_check` admits.
pub open spec fn initialized(
    ctx: Context<InitializeEscrow>,
    initializer_amount: u64,
    taker_rate: u64,
    bumps: StateBumps,
    name: Seq<u8>,
) -> Context<InitializeEscrow> {
    Context {
        program_id: ctx.program_id,
        accounts: ctx.accounts.opened(
            custody_of(ctx.program_id),
            initializer_amount,
            taker_rate,
            bumps,
            name_tag(name),
        ),
    }
}

/// Opens the escrow labelled `state_seed_name`: records the terms at the
/// address that the label derives, and hands both of the initializer's
/// accounts to the custody authority.
///
/// The label has at most ten bytes. `initializer_amount` is recorded and
/// checked against the deposit's balance, and no more: custody is of the whole
/// deposit account.
pub fn initialize_escrow(
    ctx: &mut Context<InitializeEscrow>,
    initializer_amount: u64,
    taker_rate: u64,
    bumps: StateBumps,
    state_seed_name: String,
) -> (r: Result<Handover, ErrorCode>)
    requires
        encode_utf8(state_seed_name@).len() <= NAME_LEN,
    ensures
        match r {
            Ok(plan) => {
                let name = encode_utf8(state_seed_name@);
                let custody = custody_of(old(ctx).program_id);
                &&& initialize_check(*old(ctx), initializer_amount, bumps, name) is None
                &&& *final(ctx) == initialized(
                    *old(ctx),
                    initializer_amount,
                    taker_rate,
                    bumps,
                    name,
                )
                &&& plan == old(ctx).accounts.handover(custody)
                &&& final(ctx).accounts.initializer_deposit_token_account.owner == custody
                &&& final(ctx).accounts.initializer_receive_token_account.owner == custody
                &&& final(ctx).accounts.escrow_account.record == Some(
                    old(ctx).accounts.terms(initializer_amount, taker_rate, bumps, name_tag(name)),
                )
            },
            Err(e) => {
                &&& initialize_check(
                    *old(ctx),
                    initializer_amount,
                    bumps,
                    encode_utf8(state_seed_name@),
                ) == Some(e)
                &&& *final(ctx) == *old(ctx)
            },
        },
{
    let name_data = pad_name(state_seed_name.as_str().as_bytes());
    let record = record_address(&ctx.program_id, &name_data);
    let custody = custody_authority(&ctx.program_id);
    ctx.accounts.open(record, custody, initializer_amount, taker_rate, bumps, name_data)
}

} // verus!
