//! The bilateral token-swap escrow, second variant: functionally the same
//! exchange as the first, with a differently organized validation layer and
//! a record that additionally stores the maker's key.  Its instructions are
//! `make`, `take` and `cancel`, the last playing the first variant's refund
//! role; settlement and cancellation both pay out the order balance
//! account's full current holdings.

use vstd::prelude::*;

use crate::addr::{AccountId, Authority, Seeds};
use crate::token::{
    apply_transfer, check_transfer, spec_check_transfer, LedgerError, MintAccount, TokenAccount,
};

verus! {

/// The escrow record: the maker's key, the two mint keys, the deposited
/// and expected figures, the order's sequence number, and the derivation
/// bump.
#[derive(Clone, Copy, PartialEq, Eq, Structural, Debug)]
pub struct Escrow {
    pub maker: u64,
    pub x_mint: u64,
    pub y_mint: u64,
    pub x_amount_deposited: u64,
    pub y_amount_expected: u64,
    pub seed: u64,
    pub bump: u8,
}

impl Escrow {
    /// The derived address the record sits at, recomputed from its own
    /// stored maker key and seed components.
    pub open spec fn address(self) -> AccountId {
        AccountId::Derived(Seeds::Escrow { maker: self.maker, seed: self.seed }, self.bump)
    }

    /// Recompute the record's derived address.
    pub fn derive_address(&self) -> (r: AccountId)
        ensures
            r == self.address(),
    {
        AccountId::Derived(Seeds::Escrow { maker: self.maker, seed: self.seed }, self.bump)
    }
}

/// The accounts order creation names: the maker, the record it creates,
/// the two mints, the order's balance account, the maker's funding
/// account, and the bump the runtime found for the record's derivation.
pub struct Make {
    pub maker: u64,
    pub escrow: Option<Escrow>,
    pub x_mint: MintAccount,
    pub y_mint: MintAccount,
    pub escrow_x_token_account: Option<TokenAccount>,
    pub maker_x_token_account: TokenAccount,
    pub escrow_bump: u8,
}

impl Make {
    /// What order creation reports, and on success the record it writes:
    /// the record must not exist yet, the mints must sit at ordinary
    /// key-pair addresses, an already existing order balance account must
    /// carry asset X under the record's derived address, the maker's
    /// funding account must carry asset X under the maker's key, and the
    /// maker must be able to pay the deposit.
    pub open spec fn spec_make(
        pre: Make,
        seed: u64,
        x_amount_deposited: u64,
        y_amount_expected: u64,
    ) -> Result<Escrow, LedgerError> {
        if pre.escrow is Some {
            Err(LedgerError::AccountInUse)
        } else if !(pre.x_mint.addr is User) || !(pre.y_mint.addr is User) {
            Err(LedgerError::WrongAddress)
        } else {
            let record = Escrow {
                maker: pre.maker,
                x_mint: pre.x_mint.addr->User_0,
                y_mint: pre.y_mint.addr->User_0,
                x_amount_deposited,
                y_amount_expected,
                seed,
                bump: pre.escrow_bump,
            };
            let ata = match pre.escrow_x_token_account {
                Some(a) => a,
                None => TokenAccount { mint: pre.x_mint.addr, owner: record.address(), amount: 0 },
            };
            if ata.mint != pre.x_mint.addr {
                Err(LedgerError::WrongMint)
            } else if ata.owner != record.address() {
                Err(LedgerError::WrongOwner)
            } else if pre.maker_x_token_account.mint != pre.x_mint.addr {
                Err(LedgerError::WrongMint)
            } else if pre.maker_x_token_account.owner != AccountId::User(pre.maker) {
                Err(LedgerError::WrongOwner)
            } else {
                let leg = spec_check_transfer(
                    pre.maker_x_token_account,
                    ata,
                    pre.x_mint,
                    Authority::Keypair(pre.maker),
                    x_amount_deposited,
                    pre.x_mint.decimals,
                );
                if leg is Err {
                    Err(leg->Err_0)
                } else {
                    Ok(record)
                }
            }
        }
    }

    /// Create the order: write the record and move the deposit from the
    /// maker into the order's asset-X balance account, the destination the
    /// rest of the instruction set expects — or change nothing.
    pub fn make(&mut self, seed: u64, x_amount_deposited: u64, y_amount_expected: u64) -> (r:
        Result<(), LedgerError>)
        ensures
            ({
                let step = Make::spec_make(*old(self), seed, x_amount_deposited, y_amount_expected);
                match step {
                    Err(e) => r == Err::<(), LedgerError>(e) && *final(self) == *old(self),
                    Ok(record) => r == Ok::<(), LedgerError>(()) && *final(self) == (Make {
                        escrow: Some(record),
                        escrow_x_token_account: Some(
                            TokenAccount {
                                mint: old(self).x_mint.addr,
                                owner: record.address(),
                                amount: (match old(self).escrow_x_token_account {
                                    Some(a) => a.amount,
                                    None => 0,
                                } + x_amount_deposited) as u64,
                            },
                        ),
                        maker_x_token_account: TokenAccount {
                            amount: (old(self).maker_x_token_account.amount
                                - x_amount_deposited) as u64,
                            ..old(self).maker_x_token_account
                        },
                        ..*old(self)
                    }),
                }
            }),
    {
        if self.escrow.is_some() {
            return Err(LedgerError::AccountInUse);
        }
        let kx: u64 = match self.x_mint.addr {
            AccountId::User(k) => k,
            AccountId::Derived(_, _) => {
                return Err(LedgerError::WrongAddress);
            },
        };
        let ky: u64 = match self.y_mint.addr {
            AccountId::User(k) => k,
            AccountId::Derived(_, _) => {
                return Err(LedgerError::WrongAddress);
            },
        };
        let record = Escrow {
            maker: self.maker,
            x_mint: kx,
            y_mint: ky,
            x_amount_deposited,
            y_amount_expected,
            seed,
            bump: self.escrow_bump,
        };
        let mut ata = match self.escrow_x_token_account {
            Some(a) => a,
            None => TokenAccount {
                mint: self.x_mint.addr,
                owner: record.derive_address(),
                amount: 0,
            },
        };
        if ata.mint != self.x_mint.addr {
            return Err(LedgerError::WrongMint);
        }
        if ata.owner != record.derive_address() {
            return Err(LedgerError::WrongOwner);
        }
        if self.maker_x_token_account.mint != self.x_mint.addr {
            return Err(LedgerError::WrongMint);
        }
        if self.maker_x_token_account.owner != AccountId::User(self.maker) {
            return Err(LedgerError::WrongOwner);
        }
        let maker_auth = Authority::Keypair(self.maker);
        if let Err(e) = check_transfer(
            &self.maker_x_token_account,
            &ata,
            &self.x_mint,
            &maker_auth,
            x_amount_deposited,
            self.x_mint.decimals,
        ) {
            return Err(e);
        }
        apply_transfer(&mut self.maker_x_token_account, &mut ata, x_amount_deposited);
        self.escrow = Some(record);
        self.escrow_x_token_account = Some(ata);
        Ok(())
    }
}

/// The accounts settlement names: the taker and maker, the record, the two
/// mints, the order's balance account, and the three settling balance
/// accounts.
pub struct Take {
    pub taker: u64,
    pub maker: u64,
    pub escrow: Option<Escrow>,
    pub x_mint: MintAccount,
    pub y_mint: MintAccount,
    pub escrow_x_token_account: Option<TokenAccount>,
    pub maker_y_token_account: TokenAccount,
    pub taker_x_token_account: TokenAccount,
    pub taker_y_token_account: TokenAccount,
}

impl Take {
    /// What settlement reports: the record and the order's balance account
    /// must still exist; the record's stored maker must be the named
    /// maker; the mints must be the record's; the order's balance account
    /// must carry asset X under the record's derived address; the parties'
    /// balance accounts must carry the right mints under the right keys;
    /// the taker must be able to pay the expected figure to the maker; and
    /// the record's derivation proof must release the order balance
    /// account's full current holdings to the taker, emptying it for
    /// closure.
    pub open spec fn spec_take(pre: Take) -> Result<(), LedgerError> {
        if pre.escrow is None || pre.escrow_x_token_account is None {
            Err(LedgerError::MissingAccount)
        } else {
            let e = pre.escrow->0;
            let ata = pre.escrow_x_token_account->0;
            if e.maker != pre.maker {
                Err(LedgerError::WrongAddress)
            } else if pre.x_mint.addr != AccountId::User(e.x_mint) || pre.y_mint.addr
                != AccountId::User(e.y_mint) {
                Err(LedgerError::WrongAddress)
            } else if ata.mint != pre.x_mint.addr {
                Err(LedgerError::WrongMint)
            } else if ata.owner != e.address() {
                Err(LedgerError::WrongOwner)
            } else if pre.taker_x_token_account.mint != pre.x_mint.addr
                || pre.taker_y_token_account.mint != pre.y_mint.addr
                || pre.maker_y_token_account.mint != pre.y_mint.addr {
                Err(LedgerError::WrongMint)
            } else if pre.taker_x_token_account.owner != AccountId::User(pre.taker)
                || pre.taker_y_token_account.owner != AccountId::User(pre.taker)
                || pre.maker_y_token_account.owner != AccountId::User(pre.maker) {
                Err(LedgerError::WrongOwner)
            } else {
                let escrow_auth = Authority::Program(
                    Seeds::Escrow { maker: e.maker, seed: e.seed },
                    e.bump,
                );
                let leg_y = spec_check_transfer(
                    pre.taker_y_token_account,
                    pre.maker_y_token_account,
                    pre.y_mint,
                    Authority::Keypair(pre.taker),
                    e.y_amount_expected,
                    pre.y_mint.decimals,
                );
                let leg_x = spec_check_transfer(
                    ata,
                    pre.taker_x_token_account,
                    pre.x_mint,
                    escrow_auth,
                    ata.amount,
                    pre.x_mint.decimals,
                );
                if leg_y is Err {
                    Err(leg_y->Err_0)
                } else if leg_x is Err {
                    Err(leg_x->Err_0)
                } else {
                    Ok(())
                }
            }
        }
    }

    /// Settle the order: the taker pays the expected figure of asset Y to
    /// the maker; the record's derivation proof releases the order balance
    /// account's full holdings to the taker; the emptied account and the
    /// record close to the maker — or nothing changes.
    pub fn take(&mut self) -> (r: Result<(), LedgerError>)
        ensures
            ({
                let step = Take::spec_take(*old(self));
                match step {
                    Err(e) => r == Err::<(), LedgerError>(e) && *final(self) == *old(self),
                    Ok(_) => r == Ok::<(), LedgerError>(()) && *final(self) == (Take {
                        escrow: None,
                        escrow_x_token_account: None,
                        taker_y_token_account: TokenAccount {
                            amount: (old(self).taker_y_token_account.amount
                                - old(self).escrow->0.y_amount_expected) as u64,
                            ..old(self).taker_y_token_account
                        },
                        maker_y_token_account: TokenAccount {
                            amount: (old(self).maker_y_token_account.amount
                                + old(self).escrow->0.y_amount_expected) as u64,
                            ..old(self).maker_y_token_account
                        },
                        taker_x_token_account: TokenAccount {
                            amount: (old(self).taker_x_token_account.amount
                                + old(self).escrow_x_token_account->0.amount) as u64,
                            ..old(self).taker_x_token_account
                        },
                        ..*old(self)
                    }),
                }
            }),
    {
        let e = match self.escrow {
            Some(e) => e,
            None => {
                return Err(LedgerError::MissingAccount);
            },
        };
        let mut ata = match self.escrow_x_token_account {
            Some(a) => a,
            None => {
                return Err(LedgerError::MissingAccount);
            },
        };
        if e.maker != self.maker {
            return Err(LedgerError::WrongAddress);
        }
        if self.x_mint.addr != AccountId::User(e.x_mint) || self.y_mint.addr != AccountId::User(
            e.y_mint,
        ) {
            return Err(LedgerError::WrongAddress);
        }
        if ata.mint != self.x_mint.addr {
            return Err(LedgerError::WrongMint);
        }
        if ata.owner != e.derive_address() {
            return Err(LedgerError::WrongOwner);
        }
        if self.taker_x_token_account.mint != self.x_mint.addr || self.taker_y_token_account.mint
            != self.y_mint.addr || self.maker_y_token_account.mint != self.y_mint.addr {
            return Err(LedgerError::WrongMint);
        }
        if self.taker_x_token_account.owner != AccountId::User(self.taker)
            || self.taker_y_token_account.owner != AccountId::User(self.taker)
            || self.maker_y_token_account.owner != AccountId::User(self.maker) {
            return Err(LedgerError::WrongOwner);
        }
        let taker_auth = Authority::Keypair(self.taker);
        let escrow_auth = Authority::Program(
            Seeds::Escrow { maker: e.maker, seed: e.seed },
            e.bump,
        );
        if let Err(err) = check_transfer(
            &self.taker_y_token_account,
            &self.maker_y_token_account,
            &self.y_mint,
            &taker_auth,
            e.y_amount_expected,
            self.y_mint.decimals,
        ) {
            return Err(err);
        }
        let balance = ata.amount;
        if let Err(err) = check_transfer(
            &ata,
            &self.taker_x_token_account,
            &self.x_mint,
            &escrow_auth,
            balance,
            self.x_mint.decimals,
        ) {
            return Err(err);
        }
        apply_transfer(&mut self.taker_y_token_account, &mut self.maker_y_token_account, e.y_amount_expected);
        apply_transfer(&mut ata, &mut self.taker_x_token_account, balance);
        self.escrow = None;
        self.escrow_x_token_account = None;
        Ok(())
    }
}

/// The accounts cancellation names: the maker, the record, the two mints,
/// the order's balance account, and the maker's balance account the
/// deposit returns to.
pub struct Cancel {
    pub maker: u64,
    pub escrow: Option<Escrow>,
    pub x_mint: MintAccount,
    pub y_mint: MintAccount,
    pub escrow_x_token_account: Option<TokenAccount>,
    pub maker_x_token_account: TokenAccount,
}

impl Cancel {
    /// What cancellation reports: the record and the order's balance
    /// account must still exist; the record's stored maker must be the
    /// named maker; the order's balance account must carry asset X under
    /// the record's derived address; the maker's balance account must
    /// carry asset X under the maker's key; and the full current balance
    /// must fit there.
    pub open spec fn spec_cancel(pre: Cancel) -> Result<(), LedgerError> {
        if pre.escrow is None || pre.escrow_x_token_account is None {
            Err(LedgerError::MissingAccount)
        } else {
            let e = pre.escrow->0;
            let ata = pre.escrow_x_token_account->0;
            if e.maker != pre.maker {
                Err(LedgerError::WrongAddress)
            } else if pre.x_mint.addr != AccountId::User(e.x_mint) {
                Err(LedgerError::WrongAddress)
            } else if ata.mint != pre.x_mint.addr {
                Err(LedgerError::WrongMint)
            } else if ata.owner != e.address() {
                Err(LedgerError::WrongOwner)
            } else if pre.maker_x_token_account.mint != pre.x_mint.addr {
                Err(LedgerError::WrongMint)
            } else if pre.maker_x_token_account.owner != AccountId::User(pre.maker) {
                Err(LedgerError::WrongOwner)
            } else {
                let escrow_auth = Authority::Program(
                    Seeds::Escrow { maker: e.maker, seed: e.seed },
                    e.bump,
                );
                let leg = spec_check_transfer(
                    ata,
                    pre.maker_x_token_account,
                    pre.x_mint,
                    escrow_auth,
                    ata.amount,
                    pre.x_mint.decimals,
                );
                if leg is Err {
                    Err(leg->Err_0)
                } else {
                    Ok(())
                }
            }
        }
    }

    /// Cancel the order: the record's derivation proof returns the order
    /// balance account's full holdings to the maker, and the emptied
    /// account and the record close to the maker — or nothing changes.
    pub fn cancel(&mut self) -> (r: Result<(), LedgerError>)
        ensures
            ({
                let step = Cancel::spec_cancel(*old(self));
                match step {
                    Err(e) => r == Err::<(), LedgerError>(e) && *final(self) == *old(self),
                    Ok(_) => r == Ok::<(), LedgerError>(()) && *final(self) == (Cancel {
                        escrow: None,
                        escrow_x_token_account: None,
                        maker_x_token_account: TokenAccount {
                            amount: (old(self).maker_x_token_account.amount
                                + old(self).escrow_x_token_account->0.amount) as u64,
                            ..old(self).maker_x_token_account
                        },
                        ..*old(self)
                    }),
                }
            }),
    {
        let e = match self.escrow {
            Some(e) => e,
            None => {
                return Err(LedgerError::MissingAccount);
            },
        };
        let mut ata = match self.escrow_x_token_account {
            Some(a) => a,
            None => {
                return Err(LedgerError::MissingAccount);
            },
        };
        if e.maker != self.maker {
            return Err(LedgerError::WrongAddress);
        }
        if self.x_mint.addr != AccountId::User(e.x_mint) {
            return Err(LedgerError::WrongAddress);
        }
        if ata.mint != self.x_mint.addr {
            return Err(LedgerError::WrongMint);
        }
        if ata.owner != e.derive_address() {
            return Err(LedgerError::WrongOwner);
        }
        if self.maker_x_token_account.mint != self.x_mint.addr {
            return Err(LedgerError::WrongMint);
        }
        if self.maker_x_token_account.owner != AccountId::User(self.maker) {
            return Err(LedgerError::WrongOwner);
        }
        let escrow_auth = Authority::Program(
            Seeds::Escrow { maker: e.maker, seed: e.seed },
            e.bump,
        );
        let balance = ata.amount;
        if let Err(err) = check_transfer(
            &ata,
            &self.maker_x_token_account,
            &self.x_mint,
            &escrow_auth,
            balance,
            self.x_mint.decimals,
        ) {
            return Err(err);
        }
        apply_transfer(&mut ata, &mut self.maker_x_token_account, balance);
        self.escrow = None;
        self.escrow_x_token_account = None;
        Ok(())
    }
}

/// Create an order.
pub fn make(ctx: &mut Make, seed: u64, x_amount_deposited: u64, y_amount_expected: u64) -> (r:
    Result<(), LedgerError>)
    ensures
        ({
            let step = Make::spec_make(*old(ctx), seed, x_amount_deposited, y_amount_expected);
            match step {
                Err(e) => r == Err::<(), LedgerError>(e) && *final(ctx) == *old(ctx),
                Ok(record) => r == Ok::<(), LedgerError>(()) && *final(ctx) == (Make {
                    escrow: Some(record),
                    escrow_x_token_account: Some(
                        TokenAccount {
                            mint: old(ctx).x_mint.addr,
                            owner: record.address(),
                            amount: (match old(ctx).escrow_x_token_account {
                                Some(a) => a.amount,
                                None => 0,
                            } + x_amount_deposited) as u64,
                        },
                    ),
                    maker_x_token_account: TokenAccount {
                        amount: (old(ctx).maker_x_token_account.amount
                            - x_amount_deposited) as u64,
                        ..old(ctx).maker_x_token_account
                    },
                    ..*old(ctx)
                }),
            }
        }),
{
    ctx.make(seed, x_amount_deposited, y_amount_expected)
}

/// Settle an order.
pub fn take(ctx: &mut Take) -> (r: Result<(), LedgerError>)
    ensures
        ({
            let step = Take::spec_take(*old(ctx));
            match step {
                Err(e) => r == Err::<(), LedgerError>(e) && *final(ctx) == *old(ctx),
                Ok(_) => r == Ok::<(), LedgerError>(()) && *final(ctx) == (Take {
                    escrow: None,
                    escrow_x_token_account: None,
                    taker_y_token_account: TokenAccount {
                        amount: (old(ctx).taker_y_token_account.amount
                            - old(ctx).escrow->0.y_amount_expected) as u64,
                        ..old(ctx).taker_y_token_account
                    },
                    maker_y_token_account: TokenAccount {
                        amount: (old(ctx).maker_y_token_account.amount
                            + old(ctx).escrow->0.y_amount_expected) as u64,
                        ..old(ctx).maker_y_token_account
                    },
                    taker_x_token_account: TokenAccount {
                        amount: (old(ctx).taker_x_token_account.amount
                            + old(ctx).escrow_x_token_account->0.amount) as u64,
                        ..old(ctx).taker_x_token_account
                    },
                    ..*old(ctx)
                }),
            }
        }),
{
    ctx.take()
}

/// Cancel an order.
pub fn cancel(ctx: &mut Cancel) -> (r: Result<(), LedgerError>)
    ensures
        ({
            let step = Cancel::spec_cancel(*old(ctx));
            match step {
                Err(e) => r == Err::<(), LedgerError>(e) && *final(ctx) == *old(ctx),
                Ok(_) => r == Ok::<(), LedgerError>(()) && *final(ctx) == (Cancel {
                    escrow: None,
                    escrow_x_token_account: None,
                    maker_x_token_account: TokenAccount {
                        amount: (old(ctx).maker_x_token_account.amount
                            + old(ctx).escrow_x_token_account->0.amount) as u64,
                        ..old(ctx).maker_x_token_account
                    },
                    ..*old(ctx)
                }),
            }
        }),
{
    ctx.cancel()
}

} // verus!
