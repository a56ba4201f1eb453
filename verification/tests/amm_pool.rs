//! Pool instruction scenarios: bootstrap and subsequent deposits, the
//! slippage, lock, expiration and zero-amount guards, swap legs, and the
//! literal withdrawal figures.

use custody::addr::{AccountId, Seeds};
use custody::amm::{
    initialize_amm, AmmError, AmmInstructionError, Deposit, Init, InitBumps, Swap, Withdaw,
};
use custody::token::{LedgerError, MintAccount, TokenAccount};

fn mint_x() -> MintAccount {
    MintAccount { addr: AccountId::User(1), decimals: 6, supply: 0, authority: AccountId::User(90) }
}

fn mint_y() -> MintAccount {
    MintAccount { addr: AccountId::User(2), decimals: 9, supply: 0, authority: AccountId::User(91) }
}

fn bumps() -> InitBumps {
    InitBumps { config: 254, mint_lp: 253, auth: 252 }
}

fn fresh_init() -> Init {
    Init {
        initializer: 10,
        mint_x: mint_x(),
        mint_y: mint_y(),
        config: None,
        mint_lp: None,
        vault_x: None,
        vault_y: None,
    }
}

/// A deposit context over a freshly initialized pool, with the lock flag
/// set as asked (no instruction in the pool itself ever raises it).
fn deposit_ctx(locked: bool) -> Deposit {
    let mut init = fresh_init();
    initialize_amm(&mut init, 42, 300, &bumps()).unwrap();
    let mut config = init.config.unwrap();
    config.locked = locked;
    let mint_lp = init.mint_lp.unwrap();
    Deposit {
        user: 7,
        config,
        mint_x: mint_x(),
        mint_y: mint_y(),
        user_x_ata: TokenAccount {
            mint: AccountId::User(1),
            owner: AccountId::User(7),
            amount: 10_000_000,
        },
        user_y_ata: TokenAccount {
            mint: AccountId::User(2),
            owner: AccountId::User(7),
            amount: 10_000_000,
        },
        user_lp_ata: TokenAccount { mint: mint_lp.addr, owner: AccountId::User(7), amount: 0 },
        mint_lp,
        vault_x: init.vault_x.unwrap(),
        vault_y: init.vault_y.unwrap(),
        auth: AccountId::Derived(Seeds::Auth, 252),
    }
}

fn swap_ctx_from(d: &Deposit) -> Swap {
    Swap {
        user: d.user,
        config: d.config,
        mint_lp: d.mint_lp,
        mint_x: d.mint_x,
        mint_y: d.mint_y,
        user_x_ata: d.user_x_ata,
        user_y_ata: d.user_y_ata,
        vault_x: d.vault_x,
        vault_y: d.vault_y,
        auth: d.auth,
    }
}

fn withdraw_ctx_from(d: &Deposit) -> Withdaw {
    Withdaw {
        user: d.user,
        config: d.config,
        mint_lp: d.mint_lp,
        mint_x: d.mint_x,
        mint_y: d.mint_y,
        user_x_ata: d.user_x_ata,
        user_y_ata: d.user_y_ata,
        user_lp_ata: d.user_lp_ata,
        vault_x: d.vault_x,
        vault_y: d.vault_y,
        auth: d.auth,
    }
}

#[test]
fn initialize_rejects_fee_above_bound() {
    let mut init = fresh_init();
    let r = initialize_amm(&mut init, 42, 10_001, &bumps());
    assert_eq!(r, Err(AmmInstructionError::Amm(AmmError::FeeTooHigh)));
    assert!(init.config.is_none());
    assert!(init.mint_lp.is_none());
}

#[test]
fn initialize_accepts_fee_at_bound() {
    let mut init = fresh_init();
    initialize_amm(&mut init, 42, 10_000, &bumps()).unwrap();
    let config = init.config.unwrap();
    assert_eq!(config.fee, 10_000);
    assert!(!config.locked);
    assert_eq!(config.mint_x, 1);
    assert_eq!(config.mint_y, 2);
    let mint_lp = init.mint_lp.unwrap();
    assert_eq!(mint_lp.decimals, 0);
    assert_eq!(mint_lp.supply, 0);
    assert_eq!(init.vault_x.unwrap().amount, 0);
    assert_eq!(init.vault_y.unwrap().amount, 0);
}

#[test]
fn initialize_twice_rejected() {
    let mut init = fresh_init();
    initialize_amm(&mut init, 42, 300, &bumps()).unwrap();
    let r = initialize_amm(&mut init, 42, 300, &bumps());
    assert_eq!(r, Err(AmmInstructionError::Ledger(LedgerError::AccountInUse)));
}

#[test]
fn first_deposit_bootstraps_reserves() {
    let mut d = deposit_ctx(true);
    d.deposit(100, 1_000_000, 500_000, 2_000, 1_000).unwrap();
    assert_eq!(d.vault_x.amount, 1_000_000);
    assert_eq!(d.mint_lp.supply, 100);
    assert_eq!(d.user_lp_ata.amount, 100);
    assert_eq!(d.user_x_ata.amount, 9_000_000);
    // The first deposit moves the pair exactly: the Y reserve receives
    // the Y-side bound.
    assert_eq!(d.vault_y.amount, 500_000);
    assert_eq!(d.user_y_ata.amount, 9_500_000);
}

#[test]
fn subsequent_deposit_follows_curve() {
    let mut d = deposit_ctx(true);
    d.deposit(100, 1_000_000, 500_000, 2_000, 1_000).unwrap();
    // Reserves (1_000_000, 500_000), supply 100: ten more units cost the
    // pair (100_000, 50_000), and a later deposit's Y leg moves the
    // X-side figure.
    d.deposit(10, 100_000, 100_000, 2_000, 1_000).unwrap();
    assert_eq!(d.vault_x.amount, 1_100_000);
    assert_eq!(d.vault_y.amount, 600_000);
    assert_eq!(d.mint_lp.supply, 110);
    assert_eq!(d.user_lp_ata.amount, 110);
}

#[test]
fn subsequent_deposit_slippage_guard() {
    let mut d = deposit_ctx(true);
    d.deposit(100, 1_000_000, 500_000, 2_000, 1_000).unwrap();
    let before_x = d.user_x_ata;
    let before_y = d.user_y_ata;
    let before_vx = d.vault_x;
    let before_vy = d.vault_y;
    let before_lp = d.mint_lp;
    // The curve pair is (100_000, 50_000): a Y bound of 49_999 is out.
    let r = d.deposit(10, 100_000, 49_999, 2_000, 1_000);
    assert_eq!(r, Err(AmmInstructionError::Amm(AmmError::SlippageExceeded)));
    assert_eq!(d.user_x_ata, before_x);
    assert_eq!(d.user_y_ata, before_y);
    assert_eq!(d.vault_x, before_vx);
    assert_eq!(d.vault_y, before_vy);
    assert_eq!(d.mint_lp, before_lp);
}

#[test]
fn unlocked_pool_rejects_deposit() {
    let mut d = deposit_ctx(false);
    let r = d.deposit(100, 1_000, 1_000, 2_000, 1_000);
    assert_eq!(r, Err(AmmInstructionError::Amm(AmmError::Locked)));
}

#[test]
fn expired_deposit_moves_nothing() {
    let mut d = deposit_ctx(true);
    let before = d.vault_x;
    let r = d.deposit(100, 1_000, 1_000, 1_000, 1_000);
    assert_eq!(r, Err(AmmInstructionError::Amm(AmmError::Expired)));
    assert_eq!(d.vault_x, before);
    assert_eq!(d.vault_x.amount, 0);
}

#[test]
fn expired_swap_and_withdraw_move_nothing() {
    let d = deposit_ctx(true);
    let mut s = swap_ctx_from(&d);
    let r = s.swap(1_000, 1, 900, true, 1_000);
    assert_eq!(r, Err(AmmInstructionError::Amm(AmmError::Expired)));
    assert_eq!(s.vault_x.amount, 0);
    let mut w = withdraw_ctx_from(&d);
    let r = w.withdraw(10, 10, 10, 1_000, 1_000);
    assert_eq!(r, Err(AmmInstructionError::Amm(AmmError::Expired)));
    assert_eq!(w.vault_x.amount, 0);
}

#[test]
fn deposit_zero_amount_rejected() {
    let mut d = deposit_ctx(true);
    let r = d.deposit(0, 1_000, 1_000, 2_000, 1_000);
    assert_eq!(r, Err(AmmInstructionError::Amm(AmmError::InvalidAmount)));
    let r = d.deposit(10, 0, 1_000, 2_000, 1_000);
    assert_eq!(r, Err(AmmInstructionError::Amm(AmmError::InvalidAmount)));
}

#[test]
fn deposit_curve_failure_is_invalid_deposit() {
    // A reserve without any liquidity supply is not the bootstrap case,
    // and the curve cannot price against a zero supply.
    let mut d = deposit_ctx(true);
    d.vault_x.amount = 1;
    let r = d.deposit(10, 1_000, 1_000, 2_000, 1_000);
    assert_eq!(r, Err(AmmInstructionError::Amm(AmmError::InvalidDeposit)));
}

#[test]
fn deposit_wrong_mint_rejected() {
    let mut d = deposit_ctx(true);
    d.user_x_ata.mint = AccountId::User(3);
    let r = d.deposit(100, 1_000, 1_000, 2_000, 1_000);
    assert_eq!(r, Err(AmmInstructionError::Ledger(LedgerError::WrongMint)));
}

#[test]
fn deposit_wrong_lp_address_rejected() {
    let mut d = deposit_ctx(true);
    d.mint_lp.addr = AccountId::User(50);
    let r = d.deposit(100, 1_000, 1_000, 2_000, 1_000);
    assert_eq!(r, Err(AmmInstructionError::Ledger(LedgerError::WrongAddress)));
}

#[test]
fn swap_rejects_zero_input() {
    let d = deposit_ctx(true);
    let mut s = swap_ctx_from(&d);
    let r = s.swap(0, 1, 2_000, true, 1_000);
    assert_eq!(r, Err(AmmInstructionError::Amm(AmmError::InvalidAmount)));
}

#[test]
fn swap_zero_out_leg_is_invalid_withdraw() {
    let mut d = deposit_ctx(true);
    d.deposit(100, 5_000, 5_000, 2_000, 1_000).unwrap();
    let mut s = swap_ctx_from(&d);
    // A stated minimum of zero prices a zero outgoing leg, which must not
    // reach the transfer stage.
    let r = s.swap(1_000, 0, 2_000, true, 1_000);
    assert_eq!(r, Err(AmmInstructionError::Amm(AmmError::InvalidWithdraw)));
    assert_eq!(s.vault_x.amount, 5_000);
}

#[test]
fn swap_executes_both_legs() {
    let mut d = deposit_ctx(true);
    d.deposit(100, 5_000, 5_000, 2_000, 1_000).unwrap();
    let mut s = swap_ctx_from(&d);
    s.swap(1_000, 1, 2_000, true, 1_000).unwrap();
    assert_eq!(s.vault_x.amount, 6_000);
    assert_eq!(s.user_x_ata.amount, 10_000_000 - 5_000 - 1_000);
    assert_eq!(s.vault_y.amount, 4_999);
    assert_eq!(s.user_y_ata.amount, 10_000_000 - 5_000 + 1);
}

#[test]
fn swap_incorrect_k_on_unpriceable_curve() {
    let mut d = deposit_ctx(true);
    d.deposit(100, 5_000, 5_000, 2_000, 1_000).unwrap();
    let mut s = swap_ctx_from(&d);
    // A configuration fee beyond 10 000 basis points cannot build a curve.
    s.config.fee = 10_001;
    let r = s.swap(1_000, 1, 2_000, true, 1_000);
    assert_eq!(r, Err(AmmInstructionError::Amm(AmmError::IncorrectK)));
}

#[test]
fn withdraw_moves_literal_amount() {
    let mut d = deposit_ctx(true);
    d.deposit(100, 1_000_000, 500_000, 2_000, 1_000).unwrap();
    d.deposit(10, 100_000, 100_000, 2_000, 1_000).unwrap();
    let mut w = withdraw_ctx_from(&d);
    // The curve prices ten units at (100_001, 54_546), but both reserve
    // legs move the literal liquidity figure.
    w.withdraw(10, 200_000, 200_000, 2_000, 1_000).unwrap();
    assert_eq!(w.vault_x.amount, 1_100_000 - 10);
    assert_eq!(w.vault_y.amount, 600_000 - 10);
    assert_eq!(w.user_x_ata.amount, 10_000_000 - 1_100_000 + 10);
    assert_eq!(w.user_y_ata.amount, 10_000_000 - 600_000 + 10);
    assert_eq!(w.mint_lp.supply, 100);
    assert_eq!(w.user_lp_ata.amount, 100);
}

#[test]
fn withdraw_slippage_guard() {
    let mut d = deposit_ctx(true);
    d.deposit(100, 1_000_000, 500_000, 2_000, 1_000).unwrap();
    d.deposit(10, 100_000, 100_000, 2_000, 1_000).unwrap();
    let mut w = withdraw_ctx_from(&d);
    // The guard admits the pair only while it stays at or under both
    // bounds; 100_001 exceeds 100_000.
    let r = w.withdraw(10, 100_000, 100_000, 2_000, 1_000);
    assert_eq!(r, Err(AmmInstructionError::Amm(AmmError::SlippageExceeded)));
    assert_eq!(w.vault_x.amount, 1_100_000);
}

#[test]
fn withdraw_beyond_supply_is_invalid_withdraw() {
    let mut d = deposit_ctx(true);
    d.deposit(100, 1_000_000, 500_000, 2_000, 1_000).unwrap();
    let mut w = withdraw_ctx_from(&d);
    let r = w.withdraw(200, 2_000_000, 2_000_000, 2_000, 1_000);
    assert_eq!(r, Err(AmmInstructionError::Amm(AmmError::InvalidWithdraw)));
}

#[test]
fn deposit_wrong_owner_rejected() {
    let mut d = deposit_ctx(true);
    d.user_x_ata.owner = AccountId::User(8);
    let r = d.deposit(100, 1_000, 1_000, 2_000, 1_000);
    assert_eq!(r, Err(AmmInstructionError::Ledger(LedgerError::WrongOwner)));
}

#[test]
fn deposit_overflowing_liquidity_balance_rejected() {
    let mut d = deposit_ctx(true);
    d.user_lp_ata.amount = u64::MAX;
    let before = d.vault_x;
    let r = d.deposit(100, 1_000, 1_000, 2_000, 1_000);
    assert_eq!(r, Err(AmmInstructionError::Ledger(LedgerError::Overflow)));
    assert_eq!(d.vault_x, before);
    assert_eq!(d.user_lp_ata.amount, u64::MAX);
}

#[test]
fn deposit_without_funds_rejected() {
    let mut d = deposit_ctx(true);
    d.user_x_ata.amount = 10;
    let r = d.deposit(100, 1_000, 1_000, 2_000, 1_000);
    assert_eq!(r, Err(AmmInstructionError::Ledger(LedgerError::InsufficientFunds)));
    assert_eq!(d.user_x_ata.amount, 10);
    assert_eq!(d.vault_x.amount, 0);
}
