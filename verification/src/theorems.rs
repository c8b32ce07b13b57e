//! What holds of the protocol across its instructions.
//!
//! Each theorem is stated over the checks and effects that the instructions'
//! own contracts use, with the derived addresses left as whatever the
//! derivation gives.

use vstd::prelude::*;
use vstd::arithmetic::mul::lemma_mul_is_distributive_add;
use crate::address::Address;
use crate::cancel::CancelEscrow;
use crate::cancel::cancel_check;
use crate::cancel::cancelled;
use crate::context::Context;
use crate::error::ErrorCode;
use crate::exchange::Exchange;
use crate::exchange::exchange_check;
use crate::exchange::exchanged;
use crate::initialize::InitializeEscrow;
use crate::initialize::initialize_check;
use crate::initialize::initialized;
use crate::pda::custody_of;
use crate::pda::record_seeds;
use crate::state::StateBumps;
use crate::state::NAME_LEN;
use crate::state::lemma_name_tag_padded;
use crate::state::name_tag;
use crate::state::padded;
use crate::token::TokenAccount;
use crate::trim::is_ascii_whitespace;
use crate::trim::lemma_trimmed_append;

verus! {

/// A label derives the same record address whether it is taken as given or
/// padded with spaces: creation and every later lookup meet at one address.
pub proof fn theorem_label_salt(name: Seq<u8>)
    requires
        name.len() <= NAME_LEN,
    ensures
        record_seeds(padded(name)) == record_seeds(name),
        record_seeds(name_tag(name)@) == record_seeds(name),
{
    let pad = Seq::new((NAME_LEN - name.len()) as nat, |i: int| 0x20u8);
    assert forall|j: int| 0 <= j < pad.len() implies is_ascii_whitespace(pad[j]) by {}
    lemma_trimmed_append(name, pad);
    lemma_name_tag_padded(name);
}

/// After a successful initialization the custody authority owns both of the
/// initializer's accounts, their balances are what they were, and the record
/// holds exactly what was supplied.
pub proof fn theorem_initialize_takes_custody(
    ctx: Context<InitializeEscrow>,
    initializer_amount: u64,
    taker_rate: u64,
    bumps: StateBumps,
    name: Seq<u8>,
)
    requires
        name.len() <= NAME_LEN,
        initialize_check(ctx, initializer_amount, bumps, name) is None,
    ensures
        ({
            let before = ctx.accounts;
            let after = initialized(ctx, initializer_amount, taker_rate, bumps, name).accounts;
            let terms = after.escrow_account.record->0;
            &&& after.initializer_deposit_token_account.owner == custody_of(ctx.program_id)
            &&& after.initializer_receive_token_account.owner == custody_of(ctx.program_id)
            &&& after.initializer_deposit_token_account.amount
                == before.initializer_deposit_token_account.amount
            &&& after.initializer_receive_token_account.amount
                == before.initializer_receive_token_account.amount
            &&& after.escrow_account.key == before.escrow_account.key
            &&& after.escrow_account.record is Some
            &&& terms.initializer_key == before.initializer
            &&& terms.initializer_deposit_token_account
                == before.initializer_deposit_token_account.key
            &&& terms.initializer_receive_token_account
                == before.initializer_receive_token_account.key
            &&& terms.initializer_amount == initializer_amount
            &&& terms.taker_rate == taker_rate
            &&& terms.state_seed_name@ == padded(name)
            &&& terms.bumps == bumps
            &&& initializer_amount <= after.initializer_deposit_token_account.amount
        }),
{
    lemma_name_tag_padded(name);
}

/// The cancellation of the escrow that an initialization has just opened: on
/// the same accounts, by the same initializer, under the custody authority.
pub open spec fn cancel_of(opened: Context<InitializeEscrow>) -> Context<CancelEscrow> {
    Context {
        program_id: opened.program_id,
        accounts: CancelEscrow {
            initializer: opened.accounts.initializer,
            pda_deposit_token_account: opened.accounts.initializer_deposit_token_account,
            pda_receive_token_account: opened.accounts.initializer_receive_token_account,
            pda_account: custody_of(opened.program_id),
            escrow_account: opened.accounts.escrow_account,
        },
    }
}

/// An initialization followed at once by a cancellation puts everything back:
/// the cancellation is accepted, both accounts have the owner and the balance
/// they had before the initialization, and the record's address is free.
pub proof fn theorem_initialize_then_cancel(
    ctx: Context<InitializeEscrow>,
    initializer_amount: u64,
    taker_rate: u64,
    bumps: StateBumps,
    name: Seq<u8>,
)
    requires
        name.len() <= NAME_LEN,
        initialize_check(ctx, initializer_amount, bumps, name) is None,
    ensures
        ({
            let cancel = cancel_of(initialized(ctx, initializer_amount, taker_rate, bumps, name));
            let after = cancelled(cancel).accounts;
            &&& cancel_check(cancel) is None
            &&& after.pda_deposit_token_account == ctx.accounts.initializer_deposit_token_account
            &&& after.pda_receive_token_account == ctx.accounts.initializer_receive_token_account
            &&& after.pda_deposit_token_account.owner == ctx.accounts.initializer
            &&& after.pda_receive_token_account.owner == ctx.accounts.initializer
            &&& after.escrow_account == ctx.accounts.escrow_account
            &&& after.escrow_account.record is None
        }),
{
    lemma_name_tag_padded(name);
}

/// A cancellation works once: it hands both accounts to the initializer and
/// removes the record, and any further cancellation at that address, whatever
/// its other accounts, finds no record.
pub proof fn theorem_cancel_once(ctx: Context<CancelEscrow>, again: Context<CancelEscrow>)
    requires
        cancel_check(ctx) is None,
        again.accounts.escrow_account == cancelled(ctx).accounts.escrow_account,
    ensures
        cancelled(ctx).accounts.pda_deposit_token_account.owner == ctx.accounts.initializer,
        cancelled(ctx).accounts.pda_receive_token_account.owner == ctx.accounts.initializer,
        cancelled(ctx).accounts.pda_deposit_token_account.amount
            == ctx.accounts.pda_deposit_token_account.amount,
        cancelled(ctx).accounts.pda_receive_token_account.amount
            == ctx.accounts.pda_receive_token_account.amount,
        cancelled(ctx).accounts.escrow_account.record is None,
        cancel_check(cancelled(ctx)) == Some(ErrorCode::MissingRecord),
        cancel_check(again) == Some(ErrorCode::MissingRecord),
{
}

/// The deposit's balance decides an exchange at exactly one point: with every
/// other account as it is, a deposit that holds less than the rate times
/// `swap_amount` is refused for its balance, and a deposit that holds that
/// amount or more is treated as any other that does.
pub proof fn theorem_exchange_boundary(ctx: Context<Exchange>, swap_amount: u64, balance: u64)
    ensures
        ({
            let needed = ctx.accounts.taker_amount(swap_amount);
            let other = Context {
                program_id: ctx.program_id,
                accounts: Exchange {
                    pda_deposit_token_account: TokenAccount {
                        amount: balance,
                        ..ctx.accounts.pda_deposit_token_account
                    },
                    ..ctx.accounts
                },
            };
            &&& exchange_check(ctx, swap_amount) is None ==> needed
                <= ctx.accounts.pda_deposit_token_account.amount
            &&& exchange_check(ctx, swap_amount) is None && balance >= needed ==> exchange_check(
                other,
                swap_amount,
            ) is None
            &&& exchange_check(ctx, swap_amount) is None && balance < needed ==> exchange_check(
                other,
                swap_amount,
            ) == Some(ErrorCode::InsufficientBalance)
            &&& needed > ctx.accounts.pda_deposit_token_account.amount ==> exchange_check(
                ctx,
                swap_amount,
            ) is Some
        }),
{
}

/// One taker's part in an exchange: who pays, from and into which accounts,
/// and how much.
pub struct Fill {
    pub taker: Address,
    pub taker_deposit_token_account: TokenAccount,
    pub taker_receive_token_account: TokenAccount,
    pub swap_amount: u64,
}

/// The exchange in which `fill` meets the escrow of `ctx`.
pub open spec fn with_fill(ctx: Context<Exchange>, fill: Fill) -> Context<Exchange> {
    Context {
        program_id: ctx.program_id,
        accounts: Exchange {
            taker: fill.taker,
            taker_deposit_token_account: fill.taker_deposit_token_account,
            taker_receive_token_account: fill.taker_receive_token_account,
            ..ctx.accounts
        },
    }
}

/// The escrow of `ctx` after the exchanges `fills`, made in order; nothing
/// where one of them is rejected.
pub open spec fn after_fills(ctx: Context<Exchange>, fills: Seq<Fill>) -> Option<Context<Exchange>>
    decreases fills.len(),
{
    if fills.len() == 0 {
        Some(ctx)
    } else {
        match after_fills(ctx, fills.drop_last()) {
            None => None,
            Some(before) => {
                let call = with_fill(before, fills.last());
                if exchange_check(call, fills.last().swap_amount) is None {
                    Some(exchanged(call, fills.last().swap_amount))
                } else {
                    None
                }
            },
        }
    }
}

/// What the takers of `fills` pay in all.
pub open spec fn total_paid(fills: Seq<Fill>) -> int
    decreases fills.len(),
{
    if fills.len() == 0 {
        0
    } else {
        total_paid(fills.drop_last()) + fills.last().swap_amount
    }
}

/// What the takers of `fills` draw from the deposit in all at the rate `rate`.
pub open spec fn total_drawn(rate: u64, fills: Seq<Fill>) -> int
    decreases fills.len(),
{
    if fills.len() == 0 {
        0
    } else {
        total_drawn(rate, fills.drop_last()) + rate * fills.last().swap_amount
    }
}

/// However many exchanges are made against one record, by whichever takers:
/// the initializer's receiving account grows by the sum of what was paid, the
/// deposit shrinks by the rate times that sum, and the record, the owners of
/// both accounts and the custody authority stay as they were.
pub proof fn theorem_fills(ctx: Context<Exchange>, fills: Seq<Fill>)
    requires
        after_fills(ctx, fills) is Some,
    ensures
        ({
            let end = after_fills(ctx, fills)->0.accounts;
            let rate = ctx.accounts.escrow_account.record->0.taker_rate;
            &&& end.initializer_receive_token_account.amount
                == ctx.accounts.initializer_receive_token_account.amount + total_paid(fills)
            &&& end.pda_deposit_token_account.amount == ctx.accounts.pda_deposit_token_account.amount
                - total_drawn(rate, fills)
            &&& total_drawn(rate, fills) == rate * total_paid(fills)
            &&& end.escrow_account == ctx.accounts.escrow_account
            &&& end.initializer_receive_token_account.owner
                == ctx.accounts.initializer_receive_token_account.owner
            &&& end.pda_deposit_token_account.owner == ctx.accounts.pda_deposit_token_account.owner
            &&& end.initializer_receive_token_account.key
                == ctx.accounts.initializer_receive_token_account.key
            &&& end.pda_deposit_token_account.key == ctx.accounts.pda_deposit_token_account.key
            &&& end.pda_account == ctx.accounts.pda_account
            &&& end.initializer_main_account == ctx.accounts.initializer_main_account
            &&& total_paid(fills) >= 0
            &&& fills.len() > 0 ==> ctx.accounts.escrow_account.record is Some
        }),
    decreases fills.len(),
{
    if fills.len() > 0 {
        let earlier = fills.drop_last();
        let last = fills.last();
        theorem_fills(ctx, earlier);
        let rate = ctx.accounts.escrow_account.record->0.taker_rate;
        lemma_mul_is_distributive_add(
            rate as int,
            total_paid(earlier),
            last.swap_amount as int,
        );
    }
}

/// While an escrow is open its accounts stay in custody: from a successful
/// initialization on, through any exchanges, the custody authority owns the
/// deposit and the receiving account, and the record is the one written.
pub proof fn theorem_custody_while_open(
    ctx: Context<InitializeEscrow>,
    initializer_amount: u64,
    taker_rate: u64,
    bumps: StateBumps,
    name: Seq<u8>,
    start: Context<Exchange>,
    fills: Seq<Fill>,
)
    requires
        name.len() <= NAME_LEN,
        initialize_check(ctx, initializer_amount, bumps, name) is None,
        ({
            let opened = initialized(ctx, initializer_amount, taker_rate, bumps, name).accounts;
            &&& start.program_id == ctx.program_id
            &&& start.accounts.pda_deposit_token_account
                == opened.initializer_deposit_token_account
            &&& start.accounts.initializer_receive_token_account
                == opened.initializer_receive_token_account
            &&& start.accounts.escrow_account == opened.escrow_account
        }),
        after_fills(start, fills) is Some,
    ensures
        ({
            let opened = initialized(ctx, initializer_amount, taker_rate, bumps, name).accounts;
            let end = after_fills(start, fills)->0.accounts;
            &&& end.pda_deposit_token_account.owner == custody_of(ctx.program_id)
            &&& end.initializer_receive_token_account.owner == custody_of(ctx.program_id)
            &&& end.pda_deposit_token_account.key == ctx.accounts.initializer_deposit_token_account.key
            &&& end.initializer_receive_token_account.key
                == ctx.accounts.initializer_receive_token_account.key
            &&& end.escrow_account == opened.escrow_account
            &&& end.escrow_account.record is Some
            &&& end.escrow_account.record->0.initializer_amount == initializer_amount
            &&& end.escrow_account.record->0.taker_rate == taker_rate
        }),
{
    theorem_initialize_takes_custody(ctx, initializer_amount, taker_rate, bumps, name);
    theorem_fills(start, fills);
}

/// An exchange that pays something strictly raises the balance of the
/// initializer's receiving account, and at a rate above zero strictly lowers
/// the deposit's.
pub proof fn theorem_exchange_moves(ctx: Context<Exchange>, swap_amount: u64)
    requires
        exchange_check(ctx, swap_amount) is None,
        swap_amount > 0,
    ensures
        ({
            let after = exchanged(ctx, swap_amount).accounts;
            let rate = ctx.accounts.escrow_account.record->0.taker_rate;
            &&& after.initializer_receive_token_account.amount
                > ctx.accounts.initializer_receive_token_account.amount
            &&& rate > 0 ==> after.pda_deposit_token_account.amount
                < ctx.accounts.pda_deposit_token_account.amount
            &&& after.pda_deposit_token_account.amount
                == ctx.accounts.pda_deposit_token_account.amount - rate * swap_amount
            &&& after.taker_receive_token_account.amount
                == ctx.accounts.taker_receive_token_account.amount + rate * swap_amount
        }),
{
    let rate = ctx.accounts.escrow_account.record->0.taker_rate;
    if rate > 0 {
        assert(rate * swap_amount > 0) by (nonlinear_arith)
            requires
                rate > 0,
                swap_amount > 0,
        ;
    }
}

} // verus!
