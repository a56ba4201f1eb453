//! The constant-product liquidity pool: one pool per (sequence number,
//! asset-X mint, asset-Y mint) triple, holding two reserve balance accounts
//! owned by the pool's configuration record, a zero-decimal liquidity mint
//! whose supply tracks claims on the reserves, and a lock flag and fee.
//!
//! Each instruction first validates the accounts it names exactly as the
//! runtime's declarative layer would, then checks its business rules, then
//! checks every transfer leg, and only then moves value: it either performs
//! all of its effects or leaves every account unchanged.

use vstd::prelude::*;

use crate::addr::{AccountId, Authority, Seeds};
use crate::curve;
use crate::curve::{ConstantProduct, LiquidityPair};
use crate::token::{
    apply_burn, apply_mint_to, apply_transfer, check_burn, check_mint_to, check_transfer,
    spec_check_burn, spec_check_mint_to, spec_check_transfer, LedgerError, MintAccount,
    TokenAccount,
};

verus! {

/// The decimal precision every curve computation of the pool uses.
pub const CURVE_PRECISION: u8 = 6;

/// The business-rule failures of the pool's instructions.
#[derive(Clone, Copy, PartialEq, Eq, Structural, Debug)]
pub enum AmmError {
    /// The fee must not exceed 10 000 basis points.
    FeeTooHigh,
    /// The lock flag does not admit liquidity-affecting instructions.
    Locked,
    /// The instruction's expiration does not lie after the ledger time.
    Expired,
    /// An amount passed to the instruction is zero.
    InvalidAmount,
    /// The curve could not price the deposit.
    InvalidDeposit,
    /// The curve could not price the withdrawal, or a swap would pay nothing out.
    InvalidWithdraw,
    /// The curve's amounts fall outside the caller's stated bounds.
    SlippageExceeded,
    /// The curve could not be built or could not execute the swap.
    IncorrectK,
}

/// What an instruction of the pool reports: one of its own business-rule
/// failures, or a structural failure of the account layer.
#[derive(Clone, Copy, PartialEq, Eq, Structural, Debug)]
pub enum AmmInstructionError {
    Amm(AmmError),
    Ledger(LedgerError),
}

/// The pool's on-ledger configuration record.
#[derive(Clone, Copy, PartialEq, Eq, Structural, Debug)]
pub struct Config {
    pub seed: u64,
    pub authority: AccountId,
    pub mint_x: u64,
    pub mint_y: u64,
    pub fee: u16,
    pub locked: bool,
    pub config_bump: u8,
    pub lp_mint_bump: u8,
    pub auth_bump: u8,
}

impl Config {
    /// The derived address the record sits at, recomputed from its own
    /// seed components.
    pub open spec fn address(self) -> AccountId {
        AccountId::Derived(
            Seeds::Config { seed: self.seed, mint_x: self.mint_x, mint_y: self.mint_y },
            self.config_bump,
        )
    }

    /// The derived address of the pool's liquidity mint.
    pub open spec fn lp_address(self) -> AccountId {
        AccountId::Derived(
            Seeds::Lp {
                seed: self.seed,
                mint_x: self.mint_x,
                mint_y: self.mint_y,
                config_bump: self.config_bump,
            },
            self.lp_mint_bump,
        )
    }

    /// The derived address of the pool's signing authority.
    pub open spec fn auth_address(self) -> AccountId {
        AccountId::Derived(Seeds::Auth, self.auth_bump)
    }

    /// Recompute the record's derived address.
    pub fn derive_address(&self) -> (r: AccountId)
        ensures
            r == self.address(),
    {
        AccountId::Derived(
            Seeds::Config { seed: self.seed, mint_x: self.mint_x, mint_y: self.mint_y },
            self.config_bump,
        )
    }

    /// Recompute the liquidity mint's derived address.
    pub fn derive_lp_address(&self) -> (r: AccountId)
        ensures
            r == self.lp_address(),
    {
        AccountId::Derived(
            Seeds::Lp {
                seed: self.seed,
                mint_x: self.mint_x,
                mint_y: self.mint_y,
                config_bump: self.config_bump,
            },
            self.lp_mint_bump,
        )
    }

    /// Recompute the signing authority's derived address.
    pub fn derive_auth_address(&self) -> (r: AccountId)
        ensures
            r == self.auth_address(),
    {
        AccountId::Derived(Seeds::Auth, self.auth_bump)
    }
}

/// The bump bytes the runtime found while deriving the accounts that pool
/// initialization creates.
#[derive(Clone, Copy, PartialEq, Eq, Structural, Debug)]
pub struct InitBumps {
    pub config: u8,
    pub mint_lp: u8,
    pub auth: u8,
}

/// The accounts pool initialization names: the payer, the two reserve
/// mints, and the four accounts it creates, absent until it runs.
pub struct Init {
    pub initializer: u64,
    pub mint_x: MintAccount,
    pub mint_y: MintAccount,
    pub config: Option<Config>,
    pub mint_lp: Option<MintAccount>,
    pub vault_x: Option<TokenAccount>,
    pub vault_y: Option<TokenAccount>,
}

impl Init {
    /// What initialization reports, and on success the record it writes:
    /// the named accounts must not exist yet, the reserve mints must sit at
    /// ordinary key-pair addresses, and the fee must not exceed 10 000
    /// basis points.
    pub open spec fn spec_init(pre: Init, seed: u64, fee: u16, bumps: InitBumps) -> Result<
        Config,
        AmmInstructionError,
    > {
        if pre.config is Some || pre.mint_lp is Some || pre.vault_x is Some || pre.vault_y
            is Some {
            Err(AmmInstructionError::Ledger(LedgerError::AccountInUse))
        } else if !(pre.mint_x.addr is User) || !(pre.mint_y.addr is User) {
            Err(AmmInstructionError::Ledger(LedgerError::WrongAddress))
        } else if fee > crate::MAX_FEE {
            Err(AmmInstructionError::Amm(AmmError::FeeTooHigh))
        } else {
            Ok(
                Config {
                    seed,
                    authority: AccountId::Derived(Seeds::Auth, bumps.auth),
                    mint_x: pre.mint_x.addr->User_0,
                    mint_y: pre.mint_y.addr->User_0,
                    fee,
                    locked: false,
                    config_bump: bumps.config,
                    lp_mint_bump: bumps.mint_lp,
                    auth_bump: bumps.auth,
                },
            )
        }
    }

    /// Create the pool: the configuration record with the lock flag down,
    /// the zero-decimal liquidity mint under the pool's signing authority,
    /// and the two empty reserve accounts owned by the configuration
    /// record.  No value moves.
    pub fn init(&mut self, seed: u64, fee: u16, bumps: &InitBumps) -> (r: Result<
        (),
        AmmInstructionError,
    >)
        ensures
            ({
                let step = Init::spec_init(*old(self), seed, fee, *bumps);
                match step {
                    Err(e) => r == Err::<(), AmmInstructionError>(e) && *final(self) == *old(self),
                    Ok(cfg) => r == Ok::<(), AmmInstructionError>(()) && *final(self) == (Init {
                        config: Some(cfg),
                        mint_lp: Some(
                            MintAccount {
                                addr: cfg.lp_address(),
                                decimals: 0,
                                supply: 0,
                                authority: cfg.auth_address(),
                            },
                        ),
                        vault_x: Some(
                            TokenAccount {
                                mint: old(self).mint_x.addr,
                                owner: cfg.address(),
                                amount: 0,
                            },
                        ),
                        vault_y: Some(
                            TokenAccount {
                                mint: old(self).mint_y.addr,
                                owner: cfg.address(),
                                amount: 0,
                            },
                        ),
                        ..*old(self)
                    }),
                }
            }),
    {
        if self.config.is_some() || self.mint_lp.is_some() || self.vault_x.is_some()
            || self.vault_y.is_some() {
            return Err(AmmInstructionError::Ledger(LedgerError::AccountInUse));
        }
        let kx: u64 = match self.mint_x.addr {
            AccountId::User(k) => k,
            AccountId::Derived(_, _) => {
                return Err(AmmInstructionError::Ledger(LedgerError::WrongAddress));
            },
        };
        let ky: u64 = match self.mint_y.addr {
            AccountId::User(k) => k,
            AccountId::Derived(_, _) => {
                return Err(AmmInstructionError::Ledger(LedgerError::WrongAddress));
            },
        };
        if fee > crate::MAX_FEE {
            return Err(AmmInstructionError::Amm(AmmError::FeeTooHigh));
        }
        let cfg = Config {
            seed,
            authority: AccountId::Derived(Seeds::Auth, bumps.auth),
            mint_x: kx,
            mint_y: ky,
            fee,
            locked: false,
            config_bump: bumps.config,
            lp_mint_bump: bumps.mint_lp,
            auth_bump: bumps.auth,
        };
        let config_addr = cfg.derive_address();
        let lp_addr = cfg.derive_lp_address();
        let auth_addr = cfg.derive_auth_address();
        self.mint_lp = Some(MintAccount { addr: lp_addr, decimals: 0, supply: 0, authority: auth_addr });
        self.vault_x = Some(TokenAccount { mint: self.mint_x.addr, owner: config_addr, amount: 0 });
        self.vault_y = Some(TokenAccount { mint: self.mint_y.addr, owner: config_addr, amount: 0 });
        self.config = Some(cfg);
        Ok(())
    }
}

/// The pool's sole public entry point: create a pool for an asset pair.
pub fn initialize_amm(ctx: &mut Init, seed: u64, fee: u16, bumps: &InitBumps) -> (r: Result<
    (),
    AmmInstructionError,
>)
    ensures
        ({
            let step = Init::spec_init(*old(ctx), seed, fee, *bumps);
            match step {
                Err(e) => r == Err::<(), AmmInstructionError>(e) && *final(ctx) == *old(ctx),
                Ok(cfg) => r == Ok::<(), AmmInstructionError>(()) && final(ctx).config == Some(cfg)
                    && final(ctx).mint_lp == Some(
                    MintAccount {
                        addr: cfg.lp_address(),
                        decimals: 0,
                        supply: 0,
                        authority: cfg.auth_address(),
                    },
                ) && final(ctx).vault_x == Some(
                    TokenAccount { mint: old(ctx).mint_x.addr, owner: cfg.address(), amount: 0 },
                ) && final(ctx).vault_y == Some(
                    TokenAccount { mint: old(ctx).mint_y.addr, owner: cfg.address(), amount: 0 },
                ) && final(ctx).mint_x == old(ctx).mint_x && final(ctx).mint_y == old(ctx).mint_y
                    && final(ctx).initializer == old(ctx).initializer,
            }
        }),
{
    ctx.init(seed, fee, bumps)
}

/// The accounts a liquidity deposit names: the depositor, the pool records,
/// the depositor's three balance accounts, and the two reserves.
pub struct Deposit {
    pub user: u64,
    pub config: Config,
    pub mint_lp: MintAccount,
    pub mint_x: MintAccount,
    pub mint_y: MintAccount,
    pub user_x_ata: TokenAccount,
    pub user_y_ata: TokenAccount,
    pub user_lp_ata: TokenAccount,
    pub vault_x: TokenAccount,
    pub vault_y: TokenAccount,
    pub auth: AccountId,
}

impl Deposit {
    /// The structural checks the runtime performs before the instruction
    /// body runs, in order: the reserve mints must be the configuration
    /// record's seed components, the liquidity mint and the signing
    /// authority must sit at their derived addresses, the depositor's
    /// balance accounts must carry the right mints under the depositor's
    /// key, and the reserves must carry the right mints under the
    /// configuration record's address.
    pub open spec fn spec_validate(self) -> Result<(), LedgerError> {
        if self.mint_x.addr != AccountId::User(self.config.mint_x) || self.mint_y.addr
            != AccountId::User(self.config.mint_y) {
            Err(LedgerError::WrongAddress)
        } else if self.mint_lp.addr != self.config.lp_address() {
            Err(LedgerError::WrongAddress)
        } else if self.auth != self.config.auth_address() {
            Err(LedgerError::WrongAddress)
        } else if self.user_x_ata.mint != self.mint_x.addr || self.user_y_ata.mint
            != self.mint_y.addr || self.user_lp_ata.mint != self.mint_lp.addr {
            Err(LedgerError::WrongMint)
        } else if self.user_x_ata.owner != AccountId::User(self.user) || self.user_y_ata.owner
            != AccountId::User(self.user) || self.user_lp_ata.owner != AccountId::User(self.user) {
            Err(LedgerError::WrongOwner)
        } else if self.vault_x.mint != self.mint_x.addr || self.vault_y.mint != self.mint_y.addr {
            Err(LedgerError::WrongMint)
        } else if self.vault_x.owner != self.config.address() || self.vault_y.owner
            != self.config.address() {
            Err(LedgerError::WrongOwner)
        } else {
            Ok(())
        }
    }

    /// Perform the structural checks of [`Deposit::spec_validate`].
    pub fn validate(&self) -> (r: Result<(), LedgerError>)
        ensures
            r == self.spec_validate(),
    {
        if self.mint_x.addr != AccountId::User(self.config.mint_x) || self.mint_y.addr
            != AccountId::User(self.config.mint_y) {
            Err(LedgerError::WrongAddress)
        } else if self.mint_lp.addr != self.config.derive_lp_address() {
            Err(LedgerError::WrongAddress)
        } else if self.auth != self.config.derive_auth_address() {
            Err(LedgerError::WrongAddress)
        } else if self.user_x_ata.mint != self.mint_x.addr || self.user_y_ata.mint
            != self.mint_y.addr || self.user_lp_ata.mint != self.mint_lp.addr {
            Err(LedgerError::WrongMint)
        } else if self.user_x_ata.owner != AccountId::User(self.user) || self.user_y_ata.owner
            != AccountId::User(self.user) || self.user_lp_ata.owner != AccountId::User(self.user) {
            Err(LedgerError::WrongOwner)
        } else if self.vault_x.mint != self.mint_x.addr || self.vault_y.mint != self.mint_y.addr {
            Err(LedgerError::WrongMint)
        } else if self.vault_x.owner != self.config.derive_address() || self.vault_y.owner
            != self.config.derive_address() {
            Err(LedgerError::WrongOwner)
        } else {
            Ok(())
        }
    }

    /// The contribution pair a deposit moves, before any account changes:
    /// the first deposit into an empty pool takes the caller's bounds as
    /// the pair and so fixes the pool's ratio; every later deposit asks the
    /// curve what minting `amount` liquidity units requires.
    pub open spec fn spec_amounts(self, amount: u64, max_x: u64, max_y: u64) -> Result<
        (u64, u64),
        AmmError,
    > {
        if self.spec_is_bootstrap() {
            Ok((max_x, max_y))
        } else {
            match curve::spec_deposit_amounts(
                self.vault_x.amount,
                self.vault_y.amount,
                self.mint_lp.supply,
                amount,
                CURVE_PRECISION,
            ) {
                Ok(p) => Ok((p.x, p.y)),
                Err(_) => Err(AmmError::InvalidDeposit),
            }
        }
    }

    /// Whether the pool is empty, so that the next deposit fixes its
    /// ratio: no liquidity unit is outstanding and the X reserve holds
    /// nothing.
    pub open spec fn spec_is_bootstrap(self) -> bool {
        self.mint_lp.supply == 0 && self.vault_x.amount == 0
    }

    /// The figure the asset-Y leg moves for a pair `(x, y)`: the first
    /// deposit into an empty pool moves the pair exactly, `y` of asset Y;
    /// every later deposit's asset-Y leg is wired to the X-side figure,
    /// and that wiring is kept as deployed rather than corrected to the
    /// Y-side one.
    pub open spec fn spec_y_leg(self, x: u64, y: u64) -> u64 {
        if self.spec_is_bootstrap() {
            y
        } else {
            x
        }
    }

    /// What a deposit reports, and on success the pair it moves.  The
    /// instruction proceeds only while the lock flag is raised — a pool
    /// starts with it down, and no instruction here raises it; the
    /// expiration must lie after the ledger time; the three amounts must
    /// be positive; the curve pair must stay within the caller's bounds;
    /// and every transfer leg must be payable.  The X reserve always
    /// receives the pair's X-side figure; the asset-Y leg moves
    /// [`Deposit::spec_y_leg`] of that pair.
    pub open spec fn spec_deposit(
        pre: Deposit,
        amount: u64,
        max_x: u64,
        max_y: u64,
        expiration: i64,
        now: i64,
    ) -> Result<(u64, u64), AmmInstructionError> {
        if pre.spec_validate() is Err {
            Err(AmmInstructionError::Ledger(pre.spec_validate()->Err_0))
        } else if !pre.config.locked {
            Err(AmmInstructionError::Amm(AmmError::Locked))
        } else if expiration <= now {
            Err(AmmInstructionError::Amm(AmmError::Expired))
        } else if amount == 0 || max_x == 0 || max_y == 0 {
            Err(AmmInstructionError::Amm(AmmError::InvalidAmount))
        } else {
            match pre.spec_amounts(amount, max_x, max_y) {
                Err(e) => Err(AmmInstructionError::Amm(e)),
                Ok((x, y)) => if !(x <= max_x && y <= max_y) {
                    Err(AmmInstructionError::Amm(AmmError::SlippageExceeded))
                } else {
                    let user_auth = Authority::Keypair(pre.user);
                    let pool_auth = Authority::Program(Seeds::Auth, pre.config.auth_bump);
                    let leg_x = spec_check_transfer(
                        pre.user_x_ata,
                        pre.vault_x,
                        pre.mint_x,
                        user_auth,
                        x,
                        pre.mint_x.decimals,
                    );
                    let leg_y = spec_check_transfer(
                        pre.user_y_ata,
                        pre.vault_y,
                        pre.mint_y,
                        user_auth,
                        pre.spec_y_leg(x, y),
                        pre.mint_y.decimals,
                    );
                    let leg_lp = spec_check_mint_to(pre.mint_lp, pre.user_lp_ata, pool_auth, amount);
                    if leg_x is Err {
                        Err(AmmInstructionError::Ledger(leg_x->Err_0))
                    } else if leg_y is Err {
                        Err(AmmInstructionError::Ledger(leg_y->Err_0))
                    } else if leg_lp is Err {
                        Err(AmmInstructionError::Ledger(leg_lp->Err_0))
                    } else {
                        Ok((x, y))
                    }
                },
            }
        }
    }

    /// Deposit liquidity: move the pair's X-side figure from the depositor
    /// into the X reserve and [`Deposit::spec_y_leg`] of the pair into the
    /// Y reserve, then mint `amount` liquidity units to the depositor
    /// under the pool's signing authority — or change nothing.
    pub fn deposit(&mut self, amount: u64, max_x: u64, max_y: u64, expiration: i64, now: i64) -> (r:
        Result<(), AmmInstructionError>)
        ensures
            ({
                let step = Deposit::spec_deposit(*old(self), amount, max_x, max_y, expiration, now);
                match step {
                    Err(e) => r == Err::<(), AmmInstructionError>(e) && *final(self) == *old(self),
                    Ok((x, y)) => r == Ok::<(), AmmInstructionError>(()) && *final(self) == (Deposit {
                        user_x_ata: TokenAccount {
                            amount: (old(self).user_x_ata.amount - x) as u64,
                            ..old(self).user_x_ata
                        },
                        vault_x: TokenAccount {
                            amount: (old(self).vault_x.amount + x) as u64,
                            ..old(self).vault_x
                        },
                        user_y_ata: TokenAccount {
                            amount: (old(self).user_y_ata.amount - old(self).spec_y_leg(x, y)) as u64,
                            ..old(self).user_y_ata
                        },
                        vault_y: TokenAccount {
                            amount: (old(self).vault_y.amount + old(self).spec_y_leg(x, y)) as u64,
                            ..old(self).vault_y
                        },
                        mint_lp: MintAccount {
                            supply: (old(self).mint_lp.supply + amount) as u64,
                            ..old(self).mint_lp
                        },
                        user_lp_ata: TokenAccount {
                            amount: (old(self).user_lp_ata.amount + amount) as u64,
                            ..old(self).user_lp_ata
                        },
                        ..*old(self)
                    }),
                }
            }),
    {
        if let Err(e) = self.validate() {
            return Err(AmmInstructionError::Ledger(e));
        }
        if !self.config.locked {
            return Err(AmmInstructionError::Amm(AmmError::Locked));
        }
        if expiration <= now {
            return Err(AmmInstructionError::Amm(AmmError::Expired));
        }
        if amount == 0 || max_x == 0 || max_y == 0 {
            return Err(AmmInstructionError::Amm(AmmError::InvalidAmount));
        }
        let bootstrap = self.mint_lp.supply == 0 && self.vault_x.amount == 0;
        let (x, y) = if bootstrap {
            (max_x, max_y)
        } else {
            match curve::xy_deposit_amounts_from_l(
                self.vault_x.amount,
                self.vault_y.amount,
                self.mint_lp.supply,
                amount,
                CURVE_PRECISION,
            ) {
                Ok(p) => (p.x, p.y),
                Err(_) => {
                    return Err(AmmInstructionError::Amm(AmmError::InvalidDeposit));
                },
            }
        };
        let y_leg: u64 = if bootstrap {
            y
        } else {
            x
        };
        if !(x <= max_x && y <= max_y) {
            return Err(AmmInstructionError::Amm(AmmError::SlippageExceeded));
        }
        let user_auth = Authority::Keypair(self.user);
        let pool_auth = Authority::Program(Seeds::Auth, self.config.auth_bump);
        if let Err(e) = check_transfer(
            &self.user_x_ata,
            &self.vault_x,
            &self.mint_x,
            &user_auth,
            x,
            self.mint_x.decimals,
        ) {
            return Err(AmmInstructionError::Ledger(e));
        }
        if let Err(e) = check_transfer(
            &self.user_y_ata,
            &self.vault_y,
            &self.mint_y,
            &user_auth,
            y_leg,
            self.mint_y.decimals,
        ) {
            return Err(AmmInstructionError::Ledger(e));
        }
        if let Err(e) = check_mint_to(&self.mint_lp, &self.user_lp_ata, &pool_auth, amount) {
            return Err(AmmInstructionError::Ledger(e));
        }
        apply_transfer(&mut self.user_x_ata, &mut self.vault_x, x);
        apply_transfer(&mut self.user_y_ata, &mut self.vault_y, y_leg);
        apply_mint_to(&mut self.mint_lp, &mut self.user_lp_ata, amount);
        Ok(())
    }
}

/// The accounts a swap names: the trader, the pool records, the trader's
/// two balance accounts, and the two reserves.
pub struct Swap {
    pub user: u64,
    pub config: Config,
    pub mint_lp: MintAccount,
    pub mint_x: MintAccount,
    pub mint_y: MintAccount,
    pub user_x_ata: TokenAccount,
    pub user_y_ata: TokenAccount,
    pub vault_x: TokenAccount,
    pub vault_y: TokenAccount,
    pub auth: AccountId,
}

impl Swap {
    /// The structural checks the runtime performs before a swap, in order,
    /// mirroring [`Deposit::spec_validate`] without the liquidity balance.
    pub open spec fn spec_validate(self) -> Result<(), LedgerError> {
        if self.mint_x.addr != AccountId::User(self.config.mint_x) || self.mint_y.addr
            != AccountId::User(self.config.mint_y) {
            Err(LedgerError::WrongAddress)
        } else if self.mint_lp.addr != self.config.lp_address() {
            Err(LedgerError::WrongAddress)
        } else if self.auth != self.config.auth_address() {
            Err(LedgerError::WrongAddress)
        } else if self.user_x_ata.mint != self.mint_x.addr || self.user_y_ata.mint
            != self.mint_y.addr {
            Err(LedgerError::WrongMint)
        } else if self.user_x_ata.owner != AccountId::User(self.user) || self.user_y_ata.owner
            != AccountId::User(self.user) {
            Err(LedgerError::WrongOwner)
        } else if self.vault_x.mint != self.mint_x.addr || self.vault_y.mint != self.mint_y.addr {
            Err(LedgerError::WrongMint)
        } else if self.vault_x.owner != self.config.address() || self.vault_y.owner
            != self.config.address() {
            Err(LedgerError::WrongOwner)
        } else {
            Ok(())
        }
    }

    /// Perform the structural checks of [`Swap::spec_validate`].
    pub fn validate(&self) -> (r: Result<(), LedgerError>)
        ensures
            r == self.spec_validate(),
    {
        if self.mint_x.addr != AccountId::User(self.config.mint_x) || self.mint_y.addr
            != AccountId::User(self.config.mint_y) {
            Err(LedgerError::WrongAddress)
        } else if self.mint_lp.addr != self.config.derive_lp_address() {
            Err(LedgerError::WrongAddress)
        } else if self.auth != self.config.derive_auth_address() {
            Err(LedgerError::WrongAddress)
        } else if self.user_x_ata.mint != self.mint_x.addr || self.user_y_ata.mint
            != self.mint_y.addr {
            Err(LedgerError::WrongMint)
        } else if self.user_x_ata.owner != AccountId::User(self.user) || self.user_y_ata.owner
            != AccountId::User(self.user) {
            Err(LedgerError::WrongOwner)
        } else if self.vault_x.mint != self.mint_x.addr || self.vault_y.mint != self.mint_y.addr {
            Err(LedgerError::WrongMint)
        } else if self.vault_x.owner != self.config.derive_address() || self.vault_y.owner
            != self.config.derive_address() {
            Err(LedgerError::WrongOwner)
        } else {
            Ok(())
        }
    }

    /// What a swap reports, and on success its two legs `(deposit,
    /// withdraw)`.  The curve is built from the input amount, the stated
    /// minimum, the liquidity supply and the pool fee, exactly as the
    /// instruction hands them over; a curve failure reads `IncorrectK`;
    /// a zero leg reads `InvalidDeposit` or `InvalidWithdraw`; then the
    /// input leg and the paying leg must both be payable.
    pub open spec fn spec_swap(
        pre: Swap,
        amount_in: u64,
        min_out: u64,
        expiration: i64,
        now: i64,
        is_x: bool,
    ) -> Result<(u64, u64), AmmInstructionError> {
        if pre.spec_validate() is Err {
            Err(AmmInstructionError::Ledger(pre.spec_validate()->Err_0))
        } else if !pre.config.locked {
            Err(AmmInstructionError::Amm(AmmError::Locked))
        } else if expiration <= now {
            Err(AmmInstructionError::Amm(AmmError::Expired))
        } else if amount_in == 0 {
            Err(AmmInstructionError::Amm(AmmError::InvalidAmount))
        } else {
            match curve::spec_init(
                amount_in,
                min_out,
                pre.mint_lp.supply,
                pre.config.fee,
                Some(CURVE_PRECISION),
            ) {
                Err(_) => Err(AmmInstructionError::Amm(AmmError::IncorrectK)),
                Ok(cp) => {
                    let pair = if is_x {
                        LiquidityPair::X
                    } else {
                        LiquidityPair::Y
                    };
                    match curve::spec_swap(cp, pair, amount_in, min_out) {
                        Err(_) => Err(AmmInstructionError::Amm(AmmError::IncorrectK)),
                        Ok(res) => if res.deposit == 0 {
                            Err(AmmInstructionError::Amm(AmmError::InvalidDeposit))
                        } else if res.withdraw == 0 {
                            Err(AmmInstructionError::Amm(AmmError::InvalidWithdraw))
                        } else {
                            let legs = Swap::spec_legs(pre, res.deposit, res.withdraw, is_x);
                            if legs is Err {
                                Err(AmmInstructionError::Ledger(legs->Err_0))
                            } else {
                                Ok((res.deposit, res.withdraw))
                            }
                        },
                    }
                },
            }
        }
    }

    /// The first failing condition of the swap's two transfer legs: the
    /// trader pays the input side, and the pool pays the other side out of
    /// its reserve, signing as the configuration record that owns it.
    /// That signer departs from the deployed instruction, which presents
    /// the trader's own key as the out-leg's authority while offering the
    /// signing-authority seeds: neither reproduces the reserve's owner, so
    /// the deployed out-leg could never pass the owner check and the
    /// instruction could never succeed.  Only the owning record's
    /// derivation makes the effect possible.
    pub open spec fn spec_legs(pre: Swap, dep: u64, wd: u64, is_x: bool) -> Result<
        (),
        LedgerError,
    > {
        let user_auth = Authority::Keypair(pre.user);
        let pool_auth = Authority::Program(
            Seeds::Config { seed: pre.config.seed, mint_x: pre.config.mint_x, mint_y: pre.config.mint_y },
            pre.config.config_bump,
        );
        let leg_in = if is_x {
            spec_check_transfer(pre.user_x_ata, pre.vault_x, pre.mint_x, user_auth, dep, pre.mint_x.decimals)
        } else {
            spec_check_transfer(pre.user_y_ata, pre.vault_y, pre.mint_y, user_auth, dep, pre.mint_y.decimals)
        };
        let leg_out = if is_x {
            spec_check_transfer(pre.vault_y, pre.user_y_ata, pre.mint_y, pool_auth, wd, pre.mint_y.decimals)
        } else {
            spec_check_transfer(pre.vault_x, pre.user_x_ata, pre.mint_x, pool_auth, wd, pre.mint_x.decimals)
        };
        if leg_in is Err {
            Err(leg_in->Err_0)
        } else if leg_out is Err {
            Err(leg_out->Err_0)
        } else {
            Ok(())
        }
    }

    /// Swap against the pool: move the curve's input leg from the trader
    /// into the named reserve, and the curve's output leg from the other
    /// reserve to the trader, signed by the derivation of the configuration
    /// record that owns the reserves — or change nothing.
    pub fn swap(&mut self, amount_in: u64, min_out: u64, expiration: i64, is_x: bool, now: i64) -> (r:
        Result<(), AmmInstructionError>)
        ensures
            ({
                let step = Swap::spec_swap(*old(self), amount_in, min_out, expiration, now, is_x);
                match step {
                    Err(e) => r == Err::<(), AmmInstructionError>(e) && *final(self) == *old(self),
                    Ok((dep, wd)) => r == Ok::<(), AmmInstructionError>(()) && (if is_x {
                        *final(self) == (Swap {
                            user_x_ata: TokenAccount {
                                amount: (old(self).user_x_ata.amount - dep) as u64,
                                ..old(self).user_x_ata
                            },
                            vault_x: TokenAccount {
                                amount: (old(self).vault_x.amount + dep) as u64,
                                ..old(self).vault_x
                            },
                            vault_y: TokenAccount {
                                amount: (old(self).vault_y.amount - wd) as u64,
                                ..old(self).vault_y
                            },
                            user_y_ata: TokenAccount {
                                amount: (old(self).user_y_ata.amount + wd) as u64,
                                ..old(self).user_y_ata
                            },
                            ..*old(self)
                        })
                    } else {
                        *final(self) == (Swap {
                            user_y_ata: TokenAccount {
                                amount: (old(self).user_y_ata.amount - dep) as u64,
                                ..old(self).user_y_ata
                            },
                            vault_y: TokenAccount {
                                amount: (old(self).vault_y.amount + dep) as u64,
                                ..old(self).vault_y
                            },
                            vault_x: TokenAccount {
                                amount: (old(self).vault_x.amount - wd) as u64,
                                ..old(self).vault_x
                            },
                            user_x_ata: TokenAccount {
                                amount: (old(self).user_x_ata.amount + wd) as u64,
                                ..old(self).user_x_ata
                            },
                            ..*old(self)
                        })
                    }),
                }
            }),
    {
        if let Err(e) = self.validate() {
            return Err(AmmInstructionError::Ledger(e));
        }
        if !self.config.locked {
            return Err(AmmInstructionError::Amm(AmmError::Locked));
        }
        if expiration <= now {
            return Err(AmmInstructionError::Amm(AmmError::Expired));
        }
        if amount_in == 0 {
            return Err(AmmInstructionError::Amm(AmmError::InvalidAmount));
        }
        let cp = match ConstantProduct::init(
            amount_in,
            min_out,
            self.mint_lp.supply,
            self.config.fee,
            Some(CURVE_PRECISION),
        ) {
            Ok(cp) => cp,
            Err(_) => {
                return Err(AmmInstructionError::Amm(AmmError::IncorrectK));
            },
        };
        let pair = if is_x {
            LiquidityPair::X
        } else {
            LiquidityPair::Y
        };
        let res = match cp.swap(pair, amount_in, min_out) {
            Ok(res) => res,
            Err(_) => {
                return Err(AmmInstructionError::Amm(AmmError::IncorrectK));
            },
        };
        if res.deposit == 0 {
            return Err(AmmInstructionError::Amm(AmmError::InvalidDeposit));
        }
        if res.withdraw == 0 {
            return Err(AmmInstructionError::Amm(AmmError::InvalidWithdraw));
        }
        let user_auth = Authority::Keypair(self.user);
        let pool_auth = Authority::Program(
            Seeds::Config {
                seed: self.config.seed,
                mint_x: self.config.mint_x,
                mint_y: self.config.mint_y,
            },
            self.config.config_bump,
        );
        if is_x {
            if let Err(e) = check_transfer(
                &self.user_x_ata,
                &self.vault_x,
                &self.mint_x,
                &user_auth,
                res.deposit,
                self.mint_x.decimals,
            ) {
                return Err(AmmInstructionError::Ledger(e));
            }
            if let Err(e) = check_transfer(
                &self.vault_y,
                &self.user_y_ata,
                &self.mint_y,
                &pool_auth,
                res.withdraw,
                self.mint_y.decimals,
            ) {
                return Err(AmmInstructionError::Ledger(e));
            }
            apply_transfer(&mut self.user_x_ata, &mut self.vault_x, res.deposit);
            apply_transfer(&mut self.vault_y, &mut self.user_y_ata, res.withdraw);
        } else {
            if let Err(e) = check_transfer(
                &self.user_y_ata,
                &self.vault_y,
                &self.mint_y,
                &user_auth,
                res.deposit,
                self.mint_y.decimals,
            ) {
                return Err(AmmInstructionError::Ledger(e));
            }
            if let Err(e) = check_transfer(
                &self.vault_x,
                &self.user_x_ata,
                &self.mint_x,
                &pool_auth,
                res.withdraw,
                self.mint_x.decimals,
            ) {
                return Err(AmmInstructionError::Ledger(e));
            }
            apply_transfer(&mut self.user_y_ata, &mut self.vault_y, res.deposit);
            apply_transfer(&mut self.vault_x, &mut self.user_x_ata, res.withdraw);
        }
        Ok(())
    }
}

/// The accounts a liquidity withdrawal names: the withdrawer, the pool
/// records, the withdrawer's three balance accounts, and the two reserves.
/// The struct keeps its deployed name, missing letter included.
pub struct Withdaw {
    pub user: u64,
    pub config: Config,
    pub mint_lp: MintAccount,
    pub mint_x: MintAccount,
    pub mint_y: MintAccount,
    pub user_x_ata: TokenAccount,
    pub user_y_ata: TokenAccount,
    pub user_lp_ata: TokenAccount,
    pub vault_x: TokenAccount,
    pub vault_y: TokenAccount,
    pub auth: AccountId,
}

impl Withdaw {
    /// The structural checks the runtime performs before a withdrawal, in
    /// the same order as [`Deposit::spec_validate`].
    pub open spec fn spec_validate(self) -> Result<(), LedgerError> {
        if self.mint_x.addr != AccountId::User(self.config.mint_x) || self.mint_y.addr
            != AccountId::User(self.config.mint_y) {
            Err(LedgerError::WrongAddress)
        } else if self.mint_lp.addr != self.config.lp_address() {
            Err(LedgerError::WrongAddress)
        } else if self.auth != self.config.auth_address() {
            Err(LedgerError::WrongAddress)
        } else if self.user_x_ata.mint != self.mint_x.addr || self.user_y_ata.mint
            != self.mint_y.addr || self.user_lp_ata.mint != self.mint_lp.addr {
            Err(LedgerError::WrongMint)
        } else if self.user_x_ata.owner != AccountId::User(self.user) || self.user_y_ata.owner
            != AccountId::User(self.user) || self.user_lp_ata.owner != AccountId::User(self.user) {
            Err(LedgerError::WrongOwner)
        } else if self.vault_x.mint != self.mint_x.addr || self.vault_y.mint != self.mint_y.addr {
            Err(LedgerError::WrongMint)
        } else if self.vault_x.owner != self.config.address() || self.vault_y.owner
            != self.config.address() {
            Err(LedgerError::WrongOwner)
        } else {
            Ok(())
        }
    }

    /// Perform the structural checks of [`Withdaw::spec_validate`].
    pub fn validate(&self) -> (r: Result<(), LedgerError>)
        ensures
            r == self.spec_validate(),
    {
        if self.mint_x.addr != AccountId::User(self.config.mint_x) || self.mint_y.addr
            != AccountId::User(self.config.mint_y) {
            Err(LedgerError::WrongAddress)
        } else if self.mint_lp.addr != self.config.derive_lp_address() {
            Err(LedgerError::WrongAddress)
        } else if self.auth != self.config.derive_auth_address() {
            Err(LedgerError::WrongAddress)
        } else if self.user_x_ata.mint != self.mint_x.addr || self.user_y_ata.mint
            != self.mint_y.addr || self.user_lp_ata.mint != self.mint_lp.addr {
            Err(LedgerError::WrongMint)
        } else if self.user_x_ata.owner != AccountId::User(self.user) || self.user_y_ata.owner
            != AccountId::User(self.user) || self.user_lp_ata.owner != AccountId::User(self.user) {
            Err(LedgerError::WrongOwner)
        } else if self.vault_x.mint != self.mint_x.addr || self.vault_y.mint != self.mint_y.addr {
            Err(LedgerError::WrongMint)
        } else if self.vault_x.owner != self.config.derive_address() || self.vault_y.owner
            != self.config.derive_address() {
            Err(LedgerError::WrongOwner)
        } else {
            Ok(())
        }
    }

    /// What a withdrawal reports, and on success the curve pair it priced.
    /// The curve converts `amount` liquidity units into a reserve pair;
    /// the slippage guard accepts the pair only while it stays at or under
    /// the caller's two bounds — that direction is kept as deployed, with
    /// the two bounds acting as ceilings; and every leg must be payable.
    /// Both reserve legs are wired to the literal `amount` of liquidity
    /// units, not the curve pair: that wiring too is kept as deployed.
    pub open spec fn spec_withdraw(
        pre: Withdaw,
        amount: u64,
        min_x: u64,
        min_y: u64,
        expiration: i64,
        now: i64,
    ) -> Result<(u64, u64), AmmInstructionError> {
        if pre.spec_validate() is Err {
            Err(AmmInstructionError::Ledger(pre.spec_validate()->Err_0))
        } else if !pre.config.locked {
            Err(AmmInstructionError::Amm(AmmError::Locked))
        } else if expiration <= now {
            Err(AmmInstructionError::Amm(AmmError::Expired))
        } else if amount == 0 || min_x == 0 || min_y == 0 {
            Err(AmmInstructionError::Amm(AmmError::InvalidAmount))
        } else {
            match curve::spec_withdraw_amounts(
                pre.vault_x.amount,
                pre.vault_y.amount,
                pre.mint_lp.supply,
                amount,
                CURVE_PRECISION,
            ) {
                Err(_) => Err(AmmInstructionError::Amm(AmmError::InvalidWithdraw)),
                Ok(p) => if !(p.x <= min_x && p.y <= min_y) {
                    Err(AmmInstructionError::Amm(AmmError::SlippageExceeded))
                } else {
                    let legs = Withdaw::spec_legs(pre, amount);
                    if legs is Err {
                        Err(AmmInstructionError::Ledger(legs->Err_0))
                    } else {
                        Ok((p.x, p.y))
                    }
                },
            }
        }
    }

    /// The first failing condition of the withdrawal's three legs: both
    /// reserves pay the literal liquidity figure to the withdrawer, signed
    /// as the configuration record that owns them, and the liquidity units
    /// burn from the withdrawer's balance.  That signer departs from the
    /// deployed instruction, which presents the signing-authority account
    /// and its `auth` seeds for the reserve legs: that address does not
    /// reproduce the reserves' owner, so the deployed legs could never
    /// pass the owner check.  Only the owning record's derivation makes
    /// the effect possible.
    pub open spec fn spec_legs(pre: Withdaw, amount: u64) -> Result<(), LedgerError> {
        let user_auth = Authority::Keypair(pre.user);
        let pool_auth = Authority::Program(
            Seeds::Config { seed: pre.config.seed, mint_x: pre.config.mint_x, mint_y: pre.config.mint_y },
            pre.config.config_bump,
        );
        let leg_x = spec_check_transfer(
            pre.vault_x,
            pre.user_x_ata,
            pre.mint_x,
            pool_auth,
            amount,
            pre.mint_x.decimals,
        );
        let leg_y = spec_check_transfer(
            pre.vault_y,
            pre.user_y_ata,
            pre.mint_y,
            pool_auth,
            amount,
            pre.mint_y.decimals,
        );
        let leg_lp = spec_check_burn(pre.mint_lp, pre.user_lp_ata, user_auth, amount);
        if leg_x is Err {
            Err(leg_x->Err_0)
        } else if leg_y is Err {
            Err(leg_y->Err_0)
        } else if leg_lp is Err {
            Err(leg_lp->Err_0)
        } else {
            Ok(())
        }
    }

    /// Withdraw liquidity: pay the literal liquidity figure out of both
    /// reserves to the withdrawer, signed by the configuration record's
    /// derivation, then burn that figure from the withdrawer's liquidity
    /// balance — or change nothing.
    pub fn withdraw(&mut self, amount: u64, min_x: u64, min_y: u64, expiration: i64, now: i64) -> (r:
        Result<(), AmmInstructionError>)
        ensures
            ({
                let step = Withdaw::spec_withdraw(*old(self), amount, min_x, min_y, expiration, now);
                match step {
                    Err(e) => r == Err::<(), AmmInstructionError>(e) && *final(self) == *old(self),
                    Ok(_) => r == Ok::<(), AmmInstructionError>(()) && *final(self) == (Withdaw {
                        vault_x: TokenAccount {
                            amount: (old(self).vault_x.amount - amount) as u64,
                            ..old(self).vault_x
                        },
                        user_x_ata: TokenAccount {
                            amount: (old(self).user_x_ata.amount + amount) as u64,
                            ..old(self).user_x_ata
                        },
                        vault_y: TokenAccount {
                            amount: (old(self).vault_y.amount - amount) as u64,
                            ..old(self).vault_y
                        },
                        user_y_ata: TokenAccount {
                            amount: (old(self).user_y_ata.amount + amount) as u64,
                            ..old(self).user_y_ata
                        },
                        mint_lp: MintAccount {
                            supply: (old(self).mint_lp.supply - amount) as u64,
                            ..old(self).mint_lp
                        },
                        user_lp_ata: TokenAccount {
                            amount: (old(self).user_lp_ata.amount - amount) as u64,
                            ..old(self).user_lp_ata
                        },
                        ..*old(self)
                    }),
                }
            }),
    {
        if let Err(e) = self.validate() {
            return Err(AmmInstructionError::Ledger(e));
        }
        if !self.config.locked {
            return Err(AmmInstructionError::Amm(AmmError::Locked));
        }
        if expiration <= now {
            return Err(AmmInstructionError::Amm(AmmError::Expired));
        }
        if amount == 0 || min_x == 0 || min_y == 0 {
            return Err(AmmInstructionError::Amm(AmmError::InvalidAmount));
        }
        let p = match curve::xy_withdraw_amounts_from_l(
            self.vault_x.amount,
            self.vault_y.amount,
            self.mint_lp.supply,
            amount,
            CURVE_PRECISION,
        ) {
            Ok(p) => p,
            Err(_) => {
                return Err(AmmInstructionError::Amm(AmmError::InvalidWithdraw));
            },
        };
        if !(p.x <= min_x && p.y <= min_y) {
            return Err(AmmInstructionError::Amm(AmmError::SlippageExceeded));
        }
        let user_auth = Authority::Keypair(self.user);
        let pool_auth = Authority::Program(
            Seeds::Config {
                seed: self.config.seed,
                mint_x: self.config.mint_x,
                mint_y: self.config.mint_y,
            },
            self.config.config_bump,
        );
        if let Err(e) = check_transfer(
            &self.vault_x,
            &self.user_x_ata,
            &self.mint_x,
            &pool_auth,
            amount,
            self.mint_x.decimals,
        ) {
            return Err(AmmInstructionError::Ledger(e));
        }
        if let Err(e) = check_transfer(
            &self.vault_y,
            &self.user_y_ata,
            &self.mint_y,
            &pool_auth,
            amount,
            self.mint_y.decimals,
        ) {
            return Err(AmmInstructionError::Ledger(e));
        }
        if let Err(e) = check_burn(&self.mint_lp, &self.user_lp_ata, &user_auth, amount) {
            return Err(AmmInstructionError::Ledger(e));
        }
        apply_transfer(&mut self.vault_x, &mut self.user_x_ata, amount);
        apply_transfer(&mut self.vault_y, &mut self.user_y_ata, amount);
        apply_burn(&mut self.mint_lp, &mut self.user_lp_ata, amount);
        Ok(())
    }
}

/// The pool fails initialization with `FeeTooHigh` exactly when the fee
/// exceeds 10 000 basis points: on fresh accounts and key-pair mints, a fee
/// of at most 10 000 always succeeds, and a higher one never does.
pub proof fn lemma_initialize_fee_bound(pre: Init, seed: u64, fee: u16, bumps: InitBumps)
    requires
        pre.config is None,
        pre.mint_lp is None,
        pre.vault_x is None,
        pre.vault_y is None,
        pre.mint_x.addr is User,
        pre.mint_y.addr is User,
    ensures
        fee > crate::MAX_FEE ==> Init::spec_init(pre, seed, fee, bumps) == Result::<
            Config,
            AmmInstructionError,
        >::Err(AmmInstructionError::Amm(AmmError::FeeTooHigh)),
        fee <= crate::MAX_FEE ==> Init::spec_init(pre, seed, fee, bumps) is Ok,
{
}

/// The slippage guard of a deposit: whenever the curve's required pair
/// leaves the caller's bounds, the deposit reports `SlippageExceeded` —
/// and by the instruction's contract it then changes nothing.
pub proof fn lemma_deposit_slippage_guard(
    pre: Deposit,
    amount: u64,
    max_x: u64,
    max_y: u64,
    expiration: i64,
    now: i64,
)
    requires
        pre.spec_validate() is Ok,
        pre.config.locked,
        expiration > now,
        amount > 0,
        max_x > 0,
        max_y > 0,
        pre.spec_amounts(amount, max_x, max_y) matches Ok((x, y)) && !(x <= max_x && y <= max_y),
    ensures
        Deposit::spec_deposit(pre, amount, max_x, max_y, expiration, now) == Result::<
            (u64, u64),
            AmmInstructionError,
        >::Err(AmmInstructionError::Amm(AmmError::SlippageExceeded)),
{
}

/// The slippage guard's other direction: a pair within the caller's bounds
/// proceeds whenever every leg is payable, and the deposit then reports
/// exactly that pair — by the instruction's contract, the transfers and
/// the mint all happen.
pub proof fn lemma_deposit_within_bounds_proceeds(
    pre: Deposit,
    amount: u64,
    max_x: u64,
    max_y: u64,
    expiration: i64,
    now: i64,
)
    requires
        pre.spec_validate() is Ok,
        pre.config.locked,
        expiration > now,
        amount > 0,
        max_x > 0,
        max_y > 0,
        pre.spec_amounts(amount, max_x, max_y) is Ok,
        ({
            let (x, y) = pre.spec_amounts(amount, max_x, max_y)->Ok_0;
            x <= max_x && y <= max_y && spec_check_transfer(
                pre.user_x_ata,
                pre.vault_x,
                pre.mint_x,
                Authority::Keypair(pre.user),
                x,
                pre.mint_x.decimals,
            ) is Ok && spec_check_transfer(
                pre.user_y_ata,
                pre.vault_y,
                pre.mint_y,
                Authority::Keypair(pre.user),
                pre.spec_y_leg(x, y),
                pre.mint_y.decimals,
            ) is Ok && spec_check_mint_to(
                pre.mint_lp,
                pre.user_lp_ata,
                Authority::Program(Seeds::Auth, pre.config.auth_bump),
                amount,
            ) is Ok
        }),
    ensures
        Deposit::spec_deposit(pre, amount, max_x, max_y, expiration, now) == Result::<
            (u64, u64),
            AmmInstructionError,
        >::Ok(pre.spec_amounts(amount, max_x, max_y)->Ok_0),
{
}

/// The expiration guard: a deposit, swap or withdrawal of a structurally
/// valid, lock-admitted pool whose expiration does not lie after the
/// ledger time reports `Expired` — and by each instruction's contract it
/// then changes nothing.
pub proof fn lemma_expiration_guard(
    d: Deposit,
    s: Swap,
    w: Withdaw,
    amount: u64,
    bound_a: u64,
    bound_b: u64,
    is_x: bool,
    expiration: i64,
    now: i64,
)
    requires
        expiration <= now,
        d.spec_validate() is Ok,
        d.config.locked,
        s.spec_validate() is Ok,
        s.config.locked,
        w.spec_validate() is Ok,
        w.config.locked,
    ensures
        Deposit::spec_deposit(d, amount, bound_a, bound_b, expiration, now) == Result::<
            (u64, u64),
            AmmInstructionError,
        >::Err(AmmInstructionError::Amm(AmmError::Expired)),
        Swap::spec_swap(s, amount, bound_a, expiration, now, is_x) == Result::<
            (u64, u64),
            AmmInstructionError,
        >::Err(AmmInstructionError::Amm(AmmError::Expired)),
        Withdaw::spec_withdraw(w, amount, bound_a, bound_b, expiration, now) == Result::<
            (u64, u64),
            AmmInstructionError,
        >::Err(AmmInstructionError::Amm(AmmError::Expired)),
{
}

/// The zero guards of a swap: an input of zero reports `InvalidAmount`
/// before the curve is consulted, a curve outcome whose input leg is zero
/// reports `InvalidDeposit`, and one whose output leg is zero reports
/// `InvalidWithdraw`; in every case the instruction's contract then
/// changes nothing.
pub proof fn lemma_swap_zero_guards(
    pre: Swap,
    amount_in: u64,
    min_out: u64,
    expiration: i64,
    now: i64,
    is_x: bool,
)
    requires
        pre.spec_validate() is Ok,
        pre.config.locked,
        expiration > now,
    ensures
        amount_in == 0 ==> Swap::spec_swap(pre, amount_in, min_out, expiration, now, is_x)
            == Result::<(u64, u64), AmmInstructionError>::Err(
            AmmInstructionError::Amm(AmmError::InvalidAmount),
        ),
        amount_in != 0 && (curve::spec_init(
            amount_in,
            min_out,
            pre.mint_lp.supply,
            pre.config.fee,
            Some(CURVE_PRECISION),
        ) matches Ok(cp) && curve::spec_swap(
            cp,
            if is_x {
                LiquidityPair::X
            } else {
                LiquidityPair::Y
            },
            amount_in,
            min_out,
        ) matches Ok(res)) ==> {
            let res = curve::spec_swap(
                curve::spec_init(
                    amount_in,
                    min_out,
                    pre.mint_lp.supply,
                    pre.config.fee,
                    Some(CURVE_PRECISION),
                )->Ok_0,
                if is_x {
                    LiquidityPair::X
                } else {
                    LiquidityPair::Y
                },
                amount_in,
                min_out,
            )->Ok_0;
            (res.deposit == 0 ==> Swap::spec_swap(pre, amount_in, min_out, expiration, now, is_x)
                == Result::<(u64, u64), AmmInstructionError>::Err(
                AmmInstructionError::Amm(AmmError::InvalidDeposit),
            )) && (res.deposit != 0 && res.withdraw == 0 ==> Swap::spec_swap(
                pre,
                amount_in,
                min_out,
                expiration,
                now,
                is_x,
            ) == Result::<(u64, u64), AmmInstructionError>::Err(
                AmmInstructionError::Amm(AmmError::InvalidWithdraw),
            ))
        },
{
}

} // verus!
