use escrow::custody_authority;
use escrow::exchange;
use escrow::pad_name;
use escrow::record_address;
use escrow::Address;
use escrow::Context;
use escrow::ErrorCode;
use escrow::EscrowAccount;
use escrow::Exchange;
use escrow::ProgramAddress;
use escrow::RecordSlot;
use escrow::Settlement;
use escrow::StateBumps;
use escrow::TokenAccount;
use escrow::Transfer;

fn program() -> Address {
    Address::new([7u8; 32])
}

fn key(n: u8) -> Address {
    Address::new([n; 32])
}

fn custody() -> ProgramAddress {
    custody_authority(&program()).unwrap()
}

fn record() -> ProgramAddress {
    record_address(&program(), &pad_name(b"swap-test")).unwrap()
}

fn terms(rate: u64) -> EscrowAccount {
    EscrowAccount {
        initializer_key: key(1),
        initializer_deposit_token_account: key(2),
        initializer_receive_token_account: key(3),
        initializer_amount: 1000,
        taker_rate: rate,
        state_seed_name: pad_name(b"swap-test"),
        bumps: StateBumps { escrow_account: record().bump },
    }
}

/// An open escrow at `rate` with `deposit` locked, met by a taker who holds `purse`.
fn open(rate: u64, deposit: u64, purse: u64) -> Context<Exchange> {
    Context {
        program_id: program(),
        accounts: Exchange {
            taker: key(10),
            taker_deposit_token_account: TokenAccount { key: key(11), owner: key(10), amount: purse },
            taker_receive_token_account: TokenAccount { key: key(12), owner: key(10), amount: 4 },
            pda_deposit_token_account: TokenAccount {
                key: key(2),
                owner: custody().address,
                amount: deposit,
            },
            initializer_receive_token_account: TokenAccount {
                key: key(3),
                owner: custody().address,
                amount: 5,
            },
            initializer_main_account: key(1),
            escrow_account: RecordSlot { key: record().address, record: Some(terms(rate)) },
            pda_account: custody().address,
        },
    }
}

fn refused(mut ctx: Context<Exchange>, swap_amount: u64) -> ErrorCode {
    let given = ctx;
    let e = exchange(&mut ctx, swap_amount).unwrap_err();
    assert_eq!(ctx, given);
    e
}

#[test]
fn exchange_pays_both_sides() {
    let mut ctx = open(2, 1000, 300);
    let r = exchange(&mut ctx, 100);
    assert_eq!(
        r,
        Ok(Settlement {
            to_taker: Transfer { from: key(2), to: key(12), authority: custody().address },
            taker_amount: 200,
            bump_seed: custody().bump,
            to_initializer: Transfer { from: key(11), to: key(3), authority: key(10) },
            swap_amount: 100,
        })
    );
    assert_eq!(ctx.accounts.pda_deposit_token_account.amount, 800);
    assert_eq!(ctx.accounts.taker_receive_token_account.amount, 204);
    assert_eq!(ctx.accounts.taker_deposit_token_account.amount, 200);
    assert_eq!(ctx.accounts.initializer_receive_token_account.amount, 105);
}

#[test]
fn exchange_changes_balances_only() {
    let given = open(2, 1000, 300);
    let mut ctx = given;
    exchange(&mut ctx, 100).unwrap();
    let mut expected = given;
    expected.accounts.pda_deposit_token_account.amount = 800;
    expected.accounts.taker_receive_token_account.amount = 204;
    expected.accounts.taker_deposit_token_account.amount = 200;
    expected.accounts.initializer_receive_token_account.amount = 105;
    assert_eq!(ctx, expected);
    assert_eq!(ctx.accounts.escrow_account, given.accounts.escrow_account);
}

#[test]
fn exchange_at_the_deposit_boundary() {
    // the deposit holds exactly what is drawn
    let mut ctx = open(1, 100, 500);
    assert!(exchange(&mut ctx, 100).is_ok());
    assert_eq!(ctx.accounts.pda_deposit_token_account.amount, 0);
    // one more than it holds
    assert_eq!(refused(open(1, 100, 500), 101), ErrorCode::InsufficientBalance);
    // the same at a rate
    let mut ctx = open(3, 300, 500);
    assert!(exchange(&mut ctx, 100).is_ok());
    assert_eq!(ctx.accounts.pda_deposit_token_account.amount, 0);
    assert_eq!(refused(open(3, 299, 500), 100), ErrorCode::InsufficientBalance);
    assert_eq!(refused(open(3, 300, 500), 101), ErrorCode::InsufficientBalance);
}

#[test]
fn exchange_at_the_taker_boundary() {
    let mut ctx = open(2, 1000, 100);
    assert!(exchange(&mut ctx, 100).is_ok());
    assert_eq!(ctx.accounts.taker_deposit_token_account.amount, 0);
    assert_eq!(refused(open(2, 1000, 100), 101), ErrorCode::InsufficientBalance);
}

#[test]
fn exchange_of_nothing() {
    let given = open(2, 1000, 300);
    let mut ctx = given;
    let done = exchange(&mut ctx, 0).unwrap();
    assert_eq!(done.taker_amount, 0);
    assert_eq!(done.swap_amount, 0);
    assert_eq!(ctx, given);
}

#[test]
fn exchange_at_rate_zero() {
    let mut ctx = open(0, 1000, 300);
    let done = exchange(&mut ctx, 100).unwrap();
    assert_eq!(done.taker_amount, 0);
    assert_eq!(ctx.accounts.pda_deposit_token_account.amount, 1000);
    assert_eq!(ctx.accounts.initializer_receive_token_account.amount, 105);
}

#[test]
fn exchange_whose_product_overflows() {
    let ctx = open(u64::MAX, u64::MAX, u64::MAX);
    assert_eq!(refused(ctx, 2), ErrorCode::ArithmeticOverflow);
    let ctx = open(1 << 32, u64::MAX, u64::MAX);
    assert_eq!(refused(ctx, 1 << 32), ErrorCode::ArithmeticOverflow);
    // the largest product that fits
    let mut ctx = open(u64::MAX, u64::MAX, 1);
    ctx.accounts.taker_receive_token_account.amount = 0;
    let done = exchange(&mut ctx, 1).unwrap();
    assert_eq!(done.taker_amount, u64::MAX);
    assert_eq!(ctx.accounts.taker_receive_token_account.amount, u64::MAX);
    assert_eq!(ctx.accounts.pda_deposit_token_account.amount, 0);
}

#[test]
fn exchange_into_a_full_account() {
    let mut ctx = open(2, 1000, 300);
    ctx.accounts.taker_receive_token_account.amount = u64::MAX - 199;
    assert_eq!(refused(ctx, 100), ErrorCode::ArithmeticOverflow);
    let mut ctx = open(2, 1000, 300);
    ctx.accounts.initializer_receive_token_account.amount = u64::MAX - 99;
    // the first transfer would have passed: nothing of it is left behind
    assert_eq!(refused(ctx, 100), ErrorCode::ArithmeticOverflow);
}

#[test]
fn exchange_without_a_record() {
    let mut ctx = open(2, 1000, 300);
    ctx.accounts.escrow_account.record = None;
    assert_eq!(refused(ctx, 100), ErrorCode::MissingRecord);
}

#[test]
fn exchange_on_a_record_at_another_address() {
    let mut ctx = open(2, 1000, 300);
    ctx.accounts.escrow_account.key = key(50);
    assert_eq!(refused(ctx, 100), ErrorCode::AddressMismatch);
}

#[test]
fn exchange_on_a_record_with_another_bump() {
    let mut ctx = open(2, 1000, 300);
    let mut changed = terms(2);
    changed.bumps.escrow_account = record().bump.wrapping_add(1);
    ctx.accounts.escrow_account.record = Some(changed);
    assert_eq!(refused(ctx, 100), ErrorCode::AddressMismatch);
}

#[test]
fn exchange_on_a_record_with_another_label() {
    let mut ctx = open(2, 1000, 300);
    let mut changed = terms(2);
    changed.state_seed_name = pad_name(b"swap-tesu");
    ctx.accounts.escrow_account.record = Some(changed);
    assert_eq!(refused(ctx, 100), ErrorCode::AddressMismatch);
}

#[test]
fn exchange_with_another_deposit() {
    let mut ctx = open(2, 1000, 300);
    ctx.accounts.pda_deposit_token_account.key = key(60);
    assert_eq!(refused(ctx, 100), ErrorCode::IdentityMismatch);
}

#[test]
fn exchange_with_another_receiving_account() {
    let mut ctx = open(2, 1000, 300);
    ctx.accounts.initializer_receive_token_account.key = key(60);
    assert_eq!(refused(ctx, 100), ErrorCode::IdentityMismatch);
}

#[test]
fn exchange_with_another_initializer() {
    let mut ctx = open(2, 1000, 300);
    ctx.accounts.initializer_main_account = key(60);
    assert_eq!(refused(ctx, 100), ErrorCode::IdentityMismatch);
}

#[test]
fn exchange_under_another_authority() {
    let mut ctx = open(2, 1000, 300);
    ctx.accounts.pda_account = key(60);
    assert_eq!(refused(ctx, 100), ErrorCode::AddressMismatch);
    // also where that authority owns the deposit
    ctx.accounts.pda_deposit_token_account.owner = key(60);
    assert_eq!(refused(ctx, 100), ErrorCode::AddressMismatch);
}

#[test]
fn exchange_on_a_deposit_out_of_custody() {
    let mut ctx = open(2, 1000, 300);
    ctx.accounts.pda_deposit_token_account.owner = key(1);
    assert_eq!(refused(ctx, 100), ErrorCode::Unauthorized);
}

#[test]
fn exchange_from_an_account_of_another_owner() {
    let mut ctx = open(2, 1000, 300);
    ctx.accounts.taker_deposit_token_account.owner = key(60);
    assert_eq!(refused(ctx, 100), ErrorCode::Unauthorized);
}

#[test]
fn exchange_refusals_in_order() {
    let mut ctx = open(2, 100, 50);
    ctx.accounts.escrow_account.key = key(50);
    ctx.accounts.pda_deposit_token_account.key = key(60);
    ctx.accounts.pda_account = key(61);
    ctx.accounts.taker_deposit_token_account.owner = key(62);
    // wrong record address first
    assert_eq!(refused(ctx, 51), ErrorCode::AddressMismatch);
    ctx.accounts.escrow_account.key = record().address;
    // then the taker's balance
    assert_eq!(refused(ctx, 51), ErrorCode::InsufficientBalance);
    ctx.accounts.taker_deposit_token_account.amount = u64::MAX;
    // then the product
    assert_eq!(refused(ctx, u64::MAX), ErrorCode::ArithmeticOverflow);
    // then the deposit's balance
    assert_eq!(refused(ctx, 51), ErrorCode::InsufficientBalance);
    // then the identities on the record
    assert_eq!(refused(ctx, 50), ErrorCode::IdentityMismatch);
    ctx.accounts.pda_deposit_token_account.key = key(2);
    // then the custody authority
    assert_eq!(refused(ctx, 50), ErrorCode::AddressMismatch);
    ctx.accounts.pda_account = custody().address;
    // then the ledger's own checks
    assert_eq!(refused(ctx, 50), ErrorCode::Unauthorized);
    ctx.accounts.taker_deposit_token_account.owner = key(10);
    assert!(exchange(&mut ctx, 50).is_ok());
}

#[test]
fn exchanges_add_up() {
    let mut ctx = open(3, 1000, 0);
    let fills: [(u8, u64); 4] = [(20, 100), (21, 1), (22, 0), (23, 232)];
    let mut paid = 0u64;
    for (taker, amount) in fills {
        ctx.accounts.taker = key(taker);
        ctx.accounts.taker_deposit_token_account =
            TokenAccount { key: key(taker + 10), owner: key(taker), amount };
        ctx.accounts.taker_receive_token_account =
            TokenAccount { key: key(taker + 20), owner: key(taker), amount: 0 };
        let done = exchange(&mut ctx, amount).unwrap();
        assert_eq!(done.taker_amount, 3 * amount);
        assert_eq!(ctx.accounts.taker_receive_token_account.amount, 3 * amount);
        assert_eq!(ctx.accounts.taker_deposit_token_account.amount, 0);
        paid += amount;
        assert_eq!(ctx.accounts.initializer_receive_token_account.amount, 5 + paid);
        assert_eq!(ctx.accounts.pda_deposit_token_account.amount, 1000 - 3 * paid);
        assert_eq!(ctx.accounts.escrow_account.record, Some(terms(3)));
    }
    assert_eq!(paid, 333);
    assert_eq!(ctx.accounts.pda_deposit_token_account.amount, 1);
    // the deposit is used up: one unit would draw three
    ctx.accounts.taker_deposit_token_account.amount = 1;
    assert_eq!(refused(ctx, 1), ErrorCode::InsufficientBalance);
}

#[test]
fn settle_without_a_custody_authority() {
    let mut accounts = open(2, 1000, 300).accounts;
    let given = accounts;
    assert_eq!(accounts.settle(Some(record()), None, 100), Err(ErrorCode::AddressMismatch));
    assert_eq!(accounts.settle(None, Some(custody()), 100), Err(ErrorCode::AddressMismatch));
    assert_eq!(accounts, given);
}

#[test]
fn settle_with_given_addresses() {
    let mut accounts = open(2, 1000, 300).accounts;
    accounts.escrow_account.key = key(40);
    accounts.pda_account = key(41);
    accounts.pda_deposit_token_account.owner = key(41);
    let record = Some(ProgramAddress { address: key(40), bump: terms(2).bumps.escrow_account });
    let custody = Some(ProgramAddress { address: key(41), bump: 17 });
    let done = accounts.settle(record, custody, 7).unwrap();
    assert_eq!(done.taker_amount, 14);
    assert_eq!(done.bump_seed, 17);
    assert_eq!(done.to_taker.authority, key(41));
    assert_eq!(accounts.pda_deposit_token_account.amount, 986);
    assert_eq!(accounts.taker_receive_token_account.amount, 18);
    assert_eq!(accounts.taker_deposit_token_account.amount, 293);
    assert_eq!(accounts.initializer_receive_token_account.amount, 12);
}

#[test]
fn contexts_of_an_exchange() {
    let accounts = open(2, 1000, 300).accounts;
    assert_eq!(
        accounts.into_transfer_to_taker_context(),
        Transfer { from: key(2), to: key(12), authority: custody().address }
    );
    assert_eq!(
        accounts.into_transfer_to_initializer_context(),
        Transfer { from: key(11), to: key(3), authority: key(10) }
    );
}
