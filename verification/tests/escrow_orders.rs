//! Escrow scenarios for both variants: creation, settlement, cancellation,
//! terminal exclusivity, and rejection of forged derivation proofs.

use custody::addr::{AccountId, Authority, Seeds};
use custody::escrow_a;
use custody::escrow_b;
use custody::token::{check_transfer, LedgerError, MintAccount, TokenAccount};

fn mint(key: u64, decimals: u8) -> MintAccount {
    MintAccount {
        addr: AccountId::User(key),
        decimals,
        supply: 1_000_000,
        authority: AccountId::User(90),
    }
}

fn fresh_make_a() -> escrow_a::Make {
    escrow_a::Make {
        maker: 5,
        mint_x: mint(1, 6),
        mint_y: mint(2, 6),
        escrow: None,
        escrow_ata_x: None,
        maker_ata_x: TokenAccount { mint: AccountId::User(1), owner: AccountId::User(5), amount: 1_000 },
        maker_ata_y: TokenAccount { mint: AccountId::User(2), owner: AccountId::User(5), amount: 0 },
    }
}

fn take_a_from(mk: &escrow_a::Make) -> escrow_a::Take {
    escrow_a::Take {
        taker: 6,
        maker: 5,
        escrow: mk.escrow,
        mint_x: mk.mint_x,
        mint_y: mk.mint_y,
        escrow_ata_x: mk.escrow_ata_x,
        taker_ata_x: TokenAccount { mint: AccountId::User(1), owner: AccountId::User(6), amount: 0 },
        taker_ata_y: TokenAccount { mint: AccountId::User(2), owner: AccountId::User(6), amount: 1_000 },
        maker_ata_y: TokenAccount { mint: AccountId::User(2), owner: AccountId::User(5), amount: 20 },
    }
}

fn refund_a_from(mk: &escrow_a::Make) -> escrow_a::Refund {
    escrow_a::Refund {
        maker: 5,
        escrow: mk.escrow,
        mint_x: mk.mint_x,
        escrow_ata_x: mk.escrow_ata_x,
        maker_ata_x: mk.maker_ata_x,
    }
}

#[test]
fn make_deposits_exactly() {
    let mut mk = fresh_make_a();
    mk.make(7, 100, 250, &escrow_a::MakeBumps { escrow: 250 }).unwrap();
    let record = mk.escrow.unwrap();
    assert_eq!(record.seed, 7);
    assert_eq!(record.amount_x, 100);
    assert_eq!(record.amount_y, 250);
    assert_eq!(record.bump, 250);
    let ata = mk.escrow_ata_x.unwrap();
    assert_eq!(ata.amount, 100);
    assert_eq!(ata.owner, AccountId::Derived(Seeds::Escrow { maker: 5, seed: 7 }, 250));
    assert_eq!(mk.maker_ata_x.amount, 900);
}

#[test]
fn make_take_settles_exactly() {
    let mut mk = fresh_make_a();
    mk.make(7, 100, 250, &escrow_a::MakeBumps { escrow: 250 }).unwrap();
    let mut tk = take_a_from(&mk);
    tk.take().unwrap();
    assert_eq!(tk.maker_ata_y.amount, 270);
    assert_eq!(tk.taker_ata_x.amount, 100);
    assert_eq!(tk.taker_ata_y.amount, 750);
    assert!(tk.escrow.is_none());
    assert!(tk.escrow_ata_x.is_none());
}

#[test]
fn refund_returns_deposit() {
    let mut mk = fresh_make_a();
    mk.make(7, 100, 250, &escrow_a::MakeBumps { escrow: 250 }).unwrap();
    let mut rf = refund_a_from(&mk);
    rf.refund().unwrap();
    assert_eq!(rf.maker_ata_x.amount, 1_000);
    assert!(rf.escrow.is_none());
    assert!(rf.escrow_ata_x.is_none());
}

#[test]
fn take_after_refund_fails() {
    let mut mk = fresh_make_a();
    mk.make(7, 100, 250, &escrow_a::MakeBumps { escrow: 250 }).unwrap();
    let mut rf = refund_a_from(&mk);
    rf.refund().unwrap();
    let mut tk = take_a_from(&mk);
    tk.escrow = rf.escrow;
    tk.escrow_ata_x = rf.escrow_ata_x;
    let r = tk.take();
    assert_eq!(r, Err(LedgerError::MissingAccount));
}

#[test]
fn refund_after_take_fails() {
    let mut mk = fresh_make_a();
    mk.make(7, 100, 250, &escrow_a::MakeBumps { escrow: 250 }).unwrap();
    let mut tk = take_a_from(&mk);
    tk.take().unwrap();
    let mut rf = refund_a_from(&mk);
    rf.escrow = tk.escrow;
    rf.escrow_ata_x = tk.escrow_ata_x;
    let r = rf.refund();
    assert_eq!(r, Err(LedgerError::MissingAccount));
}

#[test]
fn mismatched_bump_rejected_at_take() {
    let mut mk = fresh_make_a();
    mk.make(7, 100, 250, &escrow_a::MakeBumps { escrow: 250 }).unwrap();
    let mut tk = take_a_from(&mk);
    // A record whose stored bump no longer reproduces the balance
    // account's owner address must not release the deposit.
    let mut record = tk.escrow.unwrap();
    record.bump = 249;
    tk.escrow = Some(record);
    let before = tk.taker_ata_x;
    let r = tk.take();
    assert_eq!(r, Err(LedgerError::WrongOwner));
    assert_eq!(tk.taker_ata_x, before);
}

#[test]
fn forged_program_authority_rejected() {
    let owner = AccountId::Derived(Seeds::Escrow { maker: 5, seed: 7 }, 250);
    let from = TokenAccount { mint: AccountId::User(1), owner, amount: 100 };
    let to = TokenAccount { mint: AccountId::User(1), owner: AccountId::User(6), amount: 0 };
    let m = mint(1, 6);
    let forged = Authority::Program(Seeds::Escrow { maker: 5, seed: 7 }, 249);
    let r = check_transfer(&from, &to, &m, &forged, 100, 6);
    assert_eq!(r, Err(LedgerError::WrongOwner));
    let genuine = Authority::Program(Seeds::Escrow { maker: 5, seed: 7 }, 250);
    let r = check_transfer(&from, &to, &m, &genuine, 100, 6);
    assert_eq!(r, Ok(()));
}

#[test]
fn take_with_remainder_rejected() {
    // The order balance account must close on settlement, so a balance
    // beyond the recorded deposit blocks the take.
    let mut mk = fresh_make_a();
    mk.make(7, 100, 250, &escrow_a::MakeBumps { escrow: 250 }).unwrap();
    let mut tk = take_a_from(&mk);
    let mut ata = tk.escrow_ata_x.unwrap();
    ata.amount = 150;
    tk.escrow_ata_x = Some(ata);
    let r = tk.take();
    assert_eq!(r, Err(LedgerError::NonZeroBalance));
}

#[test]
fn make_without_funds_fails() {
    let mut mk = fresh_make_a();
    mk.maker_ata_x.amount = 50;
    let r = mk.make(7, 100, 250, &escrow_a::MakeBumps { escrow: 250 });
    assert_eq!(r, Err(LedgerError::InsufficientFunds));
    assert!(mk.escrow.is_none());
    assert!(mk.escrow_ata_x.is_none());
    assert_eq!(mk.maker_ata_x.amount, 50);
}

#[test]
fn make_twice_rejected() {
    let mut mk = fresh_make_a();
    mk.make(7, 100, 250, &escrow_a::MakeBumps { escrow: 250 }).unwrap();
    let r = mk.make(7, 100, 250, &escrow_a::MakeBumps { escrow: 250 });
    assert_eq!(r, Err(LedgerError::AccountInUse));
}

fn fresh_make_b() -> escrow_b::Make {
    escrow_b::Make {
        maker: 5,
        escrow: None,
        x_mint: mint(1, 6),
        y_mint: mint(2, 6),
        escrow_x_token_account: None,
        maker_x_token_account: TokenAccount {
            mint: AccountId::User(1),
            owner: AccountId::User(5),
            amount: 500,
        },
        escrow_bump: 251,
    }
}

fn take_b_from(mk: &escrow_b::Make) -> escrow_b::Take {
    escrow_b::Take {
        taker: 6,
        maker: 5,
        escrow: mk.escrow,
        x_mint: mk.x_mint,
        y_mint: mk.y_mint,
        escrow_x_token_account: mk.escrow_x_token_account,
        maker_y_token_account: TokenAccount {
            mint: AccountId::User(2),
            owner: AccountId::User(5),
            amount: 0,
        },
        taker_x_token_account: TokenAccount {
            mint: AccountId::User(1),
            owner: AccountId::User(6),
            amount: 0,
        },
        taker_y_token_account: TokenAccount {
            mint: AccountId::User(2),
            owner: AccountId::User(6),
            amount: 300,
        },
    }
}

#[test]
fn variant_b_make_take_settles() {
    let mut mk = fresh_make_b();
    escrow_b::make(&mut mk, 3, 40, 70).unwrap();
    let record = mk.escrow.unwrap();
    assert_eq!(record.maker, 5);
    assert_eq!(record.x_amount_deposited, 40);
    assert_eq!(record.y_amount_expected, 70);
    assert_eq!(record.bump, 251);
    assert_eq!(mk.escrow_x_token_account.unwrap().amount, 40);
    assert_eq!(mk.maker_x_token_account.amount, 460);
    let mut tk = take_b_from(&mk);
    escrow_b::take(&mut tk).unwrap();
    assert_eq!(tk.maker_y_token_account.amount, 70);
    assert_eq!(tk.taker_y_token_account.amount, 230);
    assert_eq!(tk.taker_x_token_account.amount, 40);
    assert!(tk.escrow.is_none());
    assert!(tk.escrow_x_token_account.is_none());
}

#[test]
fn variant_b_cancel_returns_all() {
    let mut mk = fresh_make_b();
    escrow_b::make(&mut mk, 3, 40, 70).unwrap();
    let mut cn = escrow_b::Cancel {
        maker: 5,
        escrow: mk.escrow,
        x_mint: mk.x_mint,
        y_mint: mk.y_mint,
        escrow_x_token_account: mk.escrow_x_token_account,
        maker_x_token_account: mk.maker_x_token_account,
    };
    escrow_b::cancel(&mut cn).unwrap();
    assert_eq!(cn.maker_x_token_account.amount, 500);
    assert!(cn.escrow.is_none());
    assert!(cn.escrow_x_token_account.is_none());
}

#[test]
fn variant_b_take_after_cancel_fails() {
    let mut mk = fresh_make_b();
    escrow_b::make(&mut mk, 3, 40, 70).unwrap();
    let mut cn = escrow_b::Cancel {
        maker: 5,
        escrow: mk.escrow,
        x_mint: mk.x_mint,
        y_mint: mk.y_mint,
        escrow_x_token_account: mk.escrow_x_token_account,
        maker_x_token_account: mk.maker_x_token_account,
    };
    escrow_b::cancel(&mut cn).unwrap();
    let mut tk = take_b_from(&mk);
    tk.escrow = cn.escrow;
    tk.escrow_x_token_account = cn.escrow_x_token_account;
    let r = escrow_b::take(&mut tk);
    assert_eq!(r, Err(LedgerError::MissingAccount));
}

#[test]
fn variant_b_wrong_maker_rejected() {
    let mut mk = fresh_make_b();
    escrow_b::make(&mut mk, 3, 40, 70).unwrap();
    let mut tk = take_b_from(&mk);
    tk.maker = 9;
    let r = escrow_b::take(&mut tk);
    assert_eq!(r, Err(LedgerError::WrongAddress));
}

#[test]
fn take_with_foreign_mint_rejected() {
    let mut mk = fresh_make_a();
    mk.make(7, 100, 250, &escrow_a::MakeBumps { escrow: 250 }).unwrap();
    let mut tk = take_a_from(&mk);
    // A mint that is not the one the record names must not settle.
    tk.mint_y = mint(3, 6);
    let r = tk.take();
    assert_eq!(r, Err(LedgerError::WrongAddress));
}
