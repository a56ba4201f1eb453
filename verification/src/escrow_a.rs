//! The bilateral token-swap escrow, first variant: a maker deposits asset X
//! against a stated price in asset Y, keyed by an explicit per-order
//! sequence number.  The on-ledger record holds the order's figures and the
//! derivation bump; the maker's key is recovered from the derivation inputs
//! rather than stored.  A taker settles the order, or the maker reclaims
//! the deposit; exactly one of the two can ever succeed, because either one
//! closes the record and the order's balance account.

use vstd::prelude::*;

use crate::addr::{AccountId, Authority, Seeds};
use crate::token::{
    apply_transfer, check_transfer, spec_check_close, spec_check_transfer, LedgerError,
    MintAccount, TokenAccount,
};

verus! {

/// The escrow record: the order's sequence number, the two mint keys, the
/// deposited and expected figures, and the derivation bump.
#[derive(Clone, Copy, PartialEq, Eq, Structural, Debug)]
pub struct Escrow {
    pub seed: u64,
    pub mint_x: u64,
    pub mint_y: u64,
    pub amount_x: u64,
    pub amount_y: u64,
    pub bump: u8,
}

impl Escrow {
    /// The derived address the record sits at, recomputed from the maker's
    /// key and the record's own seed components.
    pub open spec fn address(self, maker: u64) -> AccountId {
        AccountId::Derived(Seeds::Escrow { maker, seed: self.seed }, self.bump)
    }

    /// Recompute the record's derived address.
    pub fn derive_address(&self, maker: u64) -> (r: AccountId)
        ensures
            r == self.address(maker),
    {
        AccountId::Derived(Seeds::Escrow { maker, seed: self.seed }, self.bump)
    }
}

/// The bump bytes the runtime found while deriving the accounts that order
/// creation creates.
#[derive(Clone, Copy, PartialEq, Eq, Structural, Debug)]
pub struct MakeBumps {
    pub escrow: u8,
}

/// The accounts order creation names: the maker, the two mints, the record
/// and the order's balance account it creates, and the maker's two balance
/// accounts.
pub struct Make {
    pub maker: u64,
    pub mint_x: MintAccount,
    pub mint_y: MintAccount,
    pub escrow: Option<Escrow>,
    pub escrow_ata_x: Option<TokenAccount>,
    pub maker_ata_x: TokenAccount,
    pub maker_ata_y: TokenAccount,
}

impl Make {
    /// What order creation reports, and on success the record it writes:
    /// the record and the order's balance account must not exist yet, the
    /// mints must sit at ordinary key-pair addresses, the maker's balance
    /// accounts must carry the right mints under the maker's key, and the
    /// maker must be able to pay the deposit into the freshly created
    /// balance account.
    pub open spec fn spec_make(
        pre: Make,
        seed: u64,
        amount_x: u64,
        amount_y: u64,
        bumps: MakeBumps,
    ) -> Result<Escrow, LedgerError> {
        if pre.escrow is Some || pre.escrow_ata_x is Some {
            Err(LedgerError::AccountInUse)
        } else if !(pre.mint_x.addr is User) || !(pre.mint_y.addr is User) {
            Err(LedgerError::WrongAddress)
        } else if pre.maker_ata_x.mint != pre.mint_x.addr || pre.maker_ata_y.mint
            != pre.mint_y.addr {
            Err(LedgerError::WrongMint)
        } else if pre.maker_ata_x.owner != AccountId::User(pre.maker) || pre.maker_ata_y.owner
            != AccountId::User(pre.maker) {
            Err(LedgerError::WrongOwner)
        } else {
            let record = Escrow {
                seed,
                mint_x: pre.mint_x.addr->User_0,
                mint_y: pre.mint_y.addr->User_0,
                amount_x,
                amount_y,
                bump: bumps.escrow,
            };
            let fresh = TokenAccount {
                mint: pre.mint_x.addr,
                owner: record.address(pre.maker),
                amount: 0,
            };
            let leg = spec_check_transfer(
                pre.maker_ata_x,
                fresh,
                pre.mint_x,
                Authority::Keypair(pre.maker),
                amount_x,
                pre.mint_x.decimals,
            );
            if leg is Err {
                Err(leg->Err_0)
            } else {
                Ok(record)
            }
        }
    }

    /// Create the order: write the record, create the order's balance
    /// account under the record's derived address, and move the deposit
    /// into it — or change nothing.  On success the order's balance
    /// account holds exactly the deposited figure.
    pub fn make(&mut self, seed: u64, amount_x: u64, amount_y: u64, bumps: &MakeBumps) -> (r:
        Result<(), LedgerError>)
        ensures
            ({
                let step = Make::spec_make(*old(self), seed, amount_x, amount_y, *bumps);
                match step {
                    Err(e) => r == Err::<(), LedgerError>(e) && *final(self) == *old(self),
                    Ok(record) => r == Ok::<(), LedgerError>(()) && *final(self) == (Make {
                        escrow: Some(record),
                        escrow_ata_x: Some(
                            TokenAccount {
                                mint: old(self).mint_x.addr,
                                owner: record.address(old(self).maker),
                                amount: amount_x,
                            },
                        ),
                        maker_ata_x: TokenAccount {
                            amount: (old(self).maker_ata_x.amount - amount_x) as u64,
                            ..old(self).maker_ata_x
                        },
                        ..*old(self)
                    }),
                }
            }),
    {
        if self.escrow.is_some() || self.escrow_ata_x.is_some() {
            return Err(LedgerError::AccountInUse);
        }
        let kx: u64 = match self.mint_x.addr {
            AccountId::User(k) => k,
            AccountId::Derived(_, _) => {
                return Err(LedgerError::WrongAddress);
            },
        };
        let ky: u64 = match self.mint_y.addr {
            AccountId::User(k) => k,
            AccountId::Derived(_, _) => {
                return Err(LedgerError::WrongAddress);
            },
        };
        if self.maker_ata_x.mint != self.mint_x.addr || self.maker_ata_y.mint != self.mint_y.addr {
            return Err(LedgerError::WrongMint);
        }
        if self.maker_ata_x.owner != AccountId::User(self.maker) || self.maker_ata_y.owner
            != AccountId::User(self.maker) {
            return Err(LedgerError::WrongOwner);
        }
        let record = Escrow { seed, mint_x: kx, mint_y: ky, amount_x, amount_y, bump: bumps.escrow };
        let mut fresh = TokenAccount {
            mint: self.mint_x.addr,
            owner: record.derive_address(self.maker),
            amount: 0,
        };
        let maker_auth = Authority::Keypair(self.maker);
        if let Err(e) = check_transfer(
            &self.maker_ata_x,
            &fresh,
            &self.mint_x,
            &maker_auth,
            amount_x,
            self.mint_x.decimals,
        ) {
            return Err(e);
        }
        apply_transfer(&mut self.maker_ata_x, &mut fresh, amount_x);
        self.escrow = Some(record);
        self.escrow_ata_x = Some(fresh);
        Ok(())
    }
}

/// The accounts settlement names: the taker and maker, the record and the
/// order's balance account, the two mints, and the three settling balance
/// accounts.
pub struct Take {
    pub taker: u64,
    pub maker: u64,
    pub escrow: Option<Escrow>,
    pub mint_x: MintAccount,
    pub mint_y: MintAccount,
    pub escrow_ata_x: Option<TokenAccount>,
    pub taker_ata_x: TokenAccount,
    pub taker_ata_y: TokenAccount,
    pub maker_ata_y: TokenAccount,
}

impl Take {
    /// What settlement reports: the record and the order's balance account
    /// must still exist; the mints must be the record's; the order's
    /// balance account must carry asset X under the record's derived
    /// address; the parties' balance accounts must carry the right mints
    /// under the right keys; the taker must be able to pay the expected
    /// figure to the maker; the record's derivation proof must release
    /// exactly the deposited figure to the taker; and that must empty the
    /// order's balance account, which then closes to the maker.
    pub open spec fn spec_take(pre: Take) -> Result<(), LedgerError> {
        if pre.escrow is None || pre.escrow_ata_x is None {
            Err(LedgerError::MissingAccount)
        } else {
            let e = pre.escrow->0;
            let ata = pre.escrow_ata_x->0;
            if pre.mint_x.addr != AccountId::User(e.mint_x) || pre.mint_y.addr != AccountId::User(
                e.mint_y,
            ) {
                Err(LedgerError::WrongAddress)
            } else if ata.mint != pre.mint_x.addr {
                Err(LedgerError::WrongMint)
            } else if ata.owner != e.address(pre.maker) {
                Err(LedgerError::WrongOwner)
            } else if pre.taker_ata_x.mint != pre.mint_x.addr || pre.taker_ata_y.mint
                != pre.mint_y.addr || pre.maker_ata_y.mint != pre.mint_y.addr {
                Err(LedgerError::WrongMint)
            } else if pre.taker_ata_x.owner != AccountId::User(pre.taker) || pre.taker_ata_y.owner
                != AccountId::User(pre.taker) || pre.maker_ata_y.owner != AccountId::User(
                pre.maker,
            ) {
                Err(LedgerError::WrongOwner)
            } else {
                let escrow_auth = Authority::Program(
                    Seeds::Escrow { maker: pre.maker, seed: e.seed },
                    e.bump,
                );
                let leg_y = spec_check_transfer(
                    pre.taker_ata_y,
                    pre.maker_ata_y,
                    pre.mint_y,
                    Authority::Keypair(pre.taker),
                    e.amount_y,
                    pre.mint_y.decimals,
                );
                let leg_x = spec_check_transfer(
                    ata,
                    pre.taker_ata_x,
                    pre.mint_x,
                    escrow_auth,
                    e.amount_x,
                    pre.mint_x.decimals,
                );
                if leg_y is Err {
                    Err(leg_y->Err_0)
                } else if leg_x is Err {
                    Err(leg_x->Err_0)
                } else {
                    let emptied = TokenAccount {
                        amount: (ata.amount - e.amount_x) as u64,
                        ..ata
                    };
                    let close = spec_check_close(emptied, escrow_auth);
                    if close is Err {
                        Err(close->Err_0)
                    } else {
                        Ok(())
                    }
                }
            }
        }
    }

    /// Settle the order: the taker pays the expected figure of asset Y to
    /// the maker; the record's derivation proof releases the deposited
    /// figure of asset X to the taker; the emptied balance account and the
    /// record close to the maker — or nothing changes.
    pub fn take(&mut self) -> (r: Result<(), LedgerError>)
        ensures
            ({
                let step = Take::spec_take(*old(self));
                match step {
                    Err(e) => r == Err::<(), LedgerError>(e) && *final(self) == *old(self),
                    Ok(_) => r == Ok::<(), LedgerError>(()) && *final(self) == (Take {
                        escrow: None,
                        escrow_ata_x: None,
                        taker_ata_y: TokenAccount {
                            amount: (old(self).taker_ata_y.amount
                                - old(self).escrow->0.amount_y) as u64,
                            ..old(self).taker_ata_y
                        },
                        maker_ata_y: TokenAccount {
                            amount: (old(self).maker_ata_y.amount
                                + old(self).escrow->0.amount_y) as u64,
                            ..old(self).maker_ata_y
                        },
                        taker_ata_x: TokenAccount {
                            amount: (old(self).taker_ata_x.amount
                                + old(self).escrow->0.amount_x) as u64,
                            ..old(self).taker_ata_x
                        },
                        ..*old(self)
                    }),
                }
            }),
    {
        let e = match self.escrow {
            Some(e) => e,
            None => {
                return Err(LedgerError::MissingAccount);
            },
        };
        let mut ata = match self.escrow_ata_x {
            Some(a) => a,
            None => {
                return Err(LedgerError::MissingAccount);
            },
        };
        if self.mint_x.addr != AccountId::User(e.mint_x) || self.mint_y.addr != AccountId::User(
            e.mint_y,
        ) {
            return Err(LedgerError::WrongAddress);
        }
        if ata.mint != self.mint_x.addr {
            return Err(LedgerError::WrongMint);
        }
        if ata.owner != e.derive_address(self.maker) {
            return Err(LedgerError::WrongOwner);
        }
        if self.taker_ata_x.mint != self.mint_x.addr || self.taker_ata_y.mint != self.mint_y.addr
            || self.maker_ata_y.mint != self.mint_y.addr {
            return Err(LedgerError::WrongMint);
        }
        if self.taker_ata_x.owner != AccountId::User(self.taker) || self.taker_ata_y.owner
            != AccountId::User(self.taker) || self.maker_ata_y.owner != AccountId::User(
            self.maker,
        ) {
            return Err(LedgerError::WrongOwner);
        }
        let taker_auth = Authority::Keypair(self.taker);
        let escrow_auth = Authority::Program(
            Seeds::Escrow { maker: self.maker, seed: e.seed },
            e.bump,
        );
        if let Err(err) = check_transfer(
            &self.taker_ata_y,
            &self.maker_ata_y,
            &self.mint_y,
            &taker_auth,
            e.amount_y,
            self.mint_y.decimals,
        ) {
            return Err(err);
        }
        if let Err(err) = check_transfer(
            &ata,
            &self.taker_ata_x,
            &self.mint_x,
            &escrow_auth,
            e.amount_x,
            self.mint_x.decimals,
        ) {
            return Err(err);
        }
        if ata.amount - e.amount_x != 0 {
            return Err(LedgerError::NonZeroBalance);
        }
        apply_transfer(&mut self.taker_ata_y, &mut self.maker_ata_y, e.amount_y);
        apply_transfer(&mut ata, &mut self.taker_ata_x, e.amount_x);
        self.escrow = None;
        self.escrow_ata_x = None;
        Ok(())
    }
}

/// The accounts cancellation names: the maker, the record and the order's
/// balance account, the deposit's mint, and the maker's balance account the
/// deposit returns to.
pub struct Refund {
    pub maker: u64,
    pub escrow: Option<Escrow>,
    pub mint_x: MintAccount,
    pub escrow_ata_x: Option<TokenAccount>,
    pub maker_ata_x: TokenAccount,
}

impl Refund {
    /// What cancellation reports: the record and the order's balance
    /// account must still exist; the mint must be the record's; the
    /// order's balance account must carry asset X under the record's
    /// derived address; the maker's balance account must carry asset X
    /// under the maker's key; and the full current balance must fit there.
    pub open spec fn spec_refund(pre: Refund) -> Result<(), LedgerError> {
        if pre.escrow is None || pre.escrow_ata_x is None {
            Err(LedgerError::MissingAccount)
        } else {
            let e = pre.escrow->0;
            let ata = pre.escrow_ata_x->0;
            if pre.mint_x.addr != AccountId::User(e.mint_x) {
                Err(LedgerError::WrongAddress)
            } else if ata.mint != pre.mint_x.addr {
                Err(LedgerError::WrongMint)
            } else if ata.owner != e.address(pre.maker) {
                Err(LedgerError::WrongOwner)
            } else if pre.maker_ata_x.mint != pre.mint_x.addr {
                Err(LedgerError::WrongMint)
            } else if pre.maker_ata_x.owner != AccountId::User(pre.maker) {
                Err(LedgerError::WrongOwner)
            } else {
                let escrow_auth = Authority::Program(
                    Seeds::Escrow { maker: pre.maker, seed: e.seed },
                    e.bump,
                );
                let leg = spec_check_transfer(
                    ata,
                    pre.maker_ata_x,
                    pre.mint_x,
                    escrow_auth,
                    ata.amount,
                    pre.mint_x.decimals,
                );
                if leg is Err {
                    Err(leg->Err_0)
                } else {
                    Ok(())
                }
            }
        }
    }

    /// Reclaim the deposit: the record's derivation proof returns the full
    /// current balance of the order's balance account to the maker, and the
    /// emptied account and the record close to the maker — or nothing
    /// changes.
    pub fn refund(&mut self) -> (r: Result<(), LedgerError>)
        ensures
            ({
                let step = Refund::spec_refund(*old(self));
                match step {
                    Err(e) => r == Err::<(), LedgerError>(e) && *final(self) == *old(self),
                    Ok(_) => r == Ok::<(), LedgerError>(()) && *final(self) == (Refund {
                        escrow: None,
                        escrow_ata_x: None,
                        maker_ata_x: TokenAccount {
                            amount: (old(self).maker_ata_x.amount
                                + old(self).escrow_ata_x->0.amount) as u64,
                            ..old(self).maker_ata_x
                        },
                        ..*old(self)
                    }),
                }
            }),
    {
        let e = match self.escrow {
            Some(e) => e,
            None => {
                return Err(LedgerError::MissingAccount);
            },
        };
        let mut ata = match self.escrow_ata_x {
            Some(a) => a,
            None => {
                return Err(LedgerError::MissingAccount);
            },
        };
        if self.mint_x.addr != AccountId::User(e.mint_x) {
            return Err(LedgerError::WrongAddress);
        }
        if ata.mint != self.mint_x.addr {
            return Err(LedgerError::WrongMint);
        }
        if ata.owner != e.derive_address(self.maker) {
            return Err(LedgerError::WrongOwner);
        }
        if self.maker_ata_x.mint != self.mint_x.addr {
            return Err(LedgerError::WrongMint);
        }
        if self.maker_ata_x.owner != AccountId::User(self.maker) {
            return Err(LedgerError::WrongOwner);
        }
        let escrow_auth = Authority::Program(
            Seeds::Escrow { maker: self.maker, seed: e.seed },
            e.bump,
        );
        let balance = ata.amount;
        if let Err(err) = check_transfer(
            &ata,
            &self.maker_ata_x,
            &self.mint_x,
            &escrow_auth,
            balance,
            self.mint_x.decimals,
        ) {
            return Err(err);
        }
        apply_transfer(&mut ata, &mut self.maker_ata_x, balance);
        self.escrow = None;
        self.escrow_ata_x = None;
        Ok(())
    }
}

/// Settlement and cancellation are mutually exclusive and terminal: a
/// successful take or refund leaves the record and the order's balance
/// account gone, and on accounts in that state any further take or refund
/// fails for the missing record and moves nothing.
pub proof fn lemma_settle_once(t: Take, rf: Refund)
    requires
        t.escrow is None || t.escrow_ata_x is None,
        rf.escrow is None || rf.escrow_ata_x is None,
    ensures
        Take::spec_take(t) == Result::<(), LedgerError>::Err(LedgerError::MissingAccount),
        Refund::spec_refund(rf) == Result::<(), LedgerError>::Err(LedgerError::MissingAccount),
{
}

} // verus!
