//! Vault scenarios: the initialize/deposit/cancel lifecycle, the identical
//! withdrawal path, and the derivation and existence guards.

use custody::addr::{AccountId, Seeds};
use custody::token::{LedgerError, NativeAccount};
use custody::vault::{
    cancel, deposit, initialize, withdraw, Cancel, Deposit, Initialize, VaultBumps, Withdraw,
};

fn bumps() -> VaultBumps {
    VaultBumps { vault_state: 254, vault: 255 }
}

fn vault_account(lamports: u64) -> NativeAccount {
    NativeAccount { addr: AccountId::Derived(Seeds::Vault { maker: 11 }, 255), lamports }
}

fn maker_account(lamports: u64) -> NativeAccount {
    NativeAccount { addr: AccountId::User(11), lamports }
}

fn initialized_state() -> Initialize {
    let mut ctx = Initialize { maker: 11, taker: 12, vault_state: None, vault: vault_account(0) };
    initialize(&mut ctx, &bumps()).unwrap();
    ctx
}

#[test]
fn initialize_writes_record() {
    let ctx = initialized_state();
    let st = ctx.vault_state.unwrap();
    assert_eq!(st.maker, 11);
    assert_eq!(st.taker, 12);
    assert_eq!(st.state_bump, 254);
    assert_eq!(st.vault_bump, 255);
}

#[test]
fn vault_initialize_twice_rejected() {
    let mut ctx = initialized_state();
    let r = initialize(&mut ctx, &bumps());
    assert_eq!(r, Err(LedgerError::AccountInUse));
}

#[test]
fn initialize_wrong_vault_address_rejected() {
    let mut ctx = Initialize {
        maker: 11,
        taker: 12,
        vault_state: None,
        vault: NativeAccount {
            addr: AccountId::Derived(Seeds::Vault { maker: 11 }, 200),
            lamports: 0,
        },
    };
    let r = initialize(&mut ctx, &bumps());
    assert_eq!(r, Err(LedgerError::WrongAddress));
    assert!(ctx.vault_state.is_none());
}

#[test]
fn initialize_deposit_cancel_returns_all() {
    let st = initialized_state();
    let mut d = Deposit { maker: maker_account(1_000), vault_state: st.vault_state, vault: st.vault };
    deposit(&mut d, 500).unwrap();
    assert_eq!(d.maker.lamports, 500);
    assert_eq!(d.vault.lamports, 500);
    let mut c = Cancel { maker: d.maker, vault_state: d.vault_state, vault: d.vault };
    cancel(&mut c).unwrap();
    assert_eq!(c.maker.lamports, 1_000);
    assert_eq!(c.vault.lamports, 0);
    assert!(c.vault_state.is_none());
}

#[test]
fn withdraw_pays_maker_not_taker() {
    let st = initialized_state();
    let mut d = Deposit { maker: maker_account(1_000), vault_state: st.vault_state, vault: st.vault };
    deposit(&mut d, 500).unwrap();
    let mut w = Withdraw { maker: d.maker, taker: 12, vault_state: d.vault_state, vault: d.vault };
    withdraw(&mut w).unwrap();
    assert_eq!(w.maker.lamports, 1_000);
    assert_eq!(w.vault.lamports, 0);
    assert_eq!(w.taker, 12);
    assert!(w.vault_state.is_none());
}

#[test]
fn deposit_without_state_fails() {
    let mut d = Deposit { maker: maker_account(1_000), vault_state: None, vault: vault_account(0) };
    let r = deposit(&mut d, 500);
    assert_eq!(r, Err(LedgerError::MissingAccount));
    assert_eq!(d.maker.lamports, 1_000);
}

#[test]
fn cancel_after_cancel_fails() {
    let st = initialized_state();
    let mut c = Cancel { maker: maker_account(0), vault_state: st.vault_state, vault: st.vault };
    cancel(&mut c).unwrap();
    let r = cancel(&mut c);
    assert_eq!(r, Err(LedgerError::MissingAccount));
}

#[test]
fn deposit_from_foreign_maker_rejected() {
    let st = initialized_state();
    let mut d = Deposit {
        maker: NativeAccount { addr: AccountId::User(99), lamports: 1_000 },
        vault_state: st.vault_state,
        vault: st.vault,
    };
    let r = deposit(&mut d, 500);
    assert_eq!(r, Err(LedgerError::WrongAddress));
}

#[test]
fn deposit_without_funds_fails() {
    let st = initialized_state();
    let mut d = Deposit { maker: maker_account(100), vault_state: st.vault_state, vault: st.vault };
    let r = deposit(&mut d, 500);
    assert_eq!(r, Err(LedgerError::InsufficientFunds));
    assert_eq!(d.vault.lamports, 0);
}

#[test]
fn cancel_overflowing_maker_fails() {
    let st = initialized_state();
    let mut d = Deposit { maker: maker_account(1_000), vault_state: st.vault_state, vault: st.vault };
    deposit(&mut d, 500).unwrap();
    let mut c = Cancel {
        maker: NativeAccount { addr: AccountId::User(11), lamports: u64::MAX },
        vault_state: d.vault_state,
        vault: d.vault,
    };
    let r = cancel(&mut c);
    assert_eq!(r, Err(LedgerError::Overflow));
    assert_eq!(c.vault.lamports, 500);
}
