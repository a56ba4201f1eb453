//! The native-currency vault: a maker custodies native currency earmarked
//! for a named taker, refundable by the maker at will.  The state record
//! and the balance-holding vault account both sit at addresses derived from
//! the maker's key; cancellation and withdrawal both return the vault's
//! entire holdings to the maker and close the state record, and the two are
//! deliberately left behaviorally identical — the taker is never paid, as
//! the instruction set stands.

use vstd::prelude::*;

use crate::addr::{AccountId, Authority, Seeds};
use crate::token::{
    apply_native_transfer, check_native_transfer, spec_check_native_transfer, LedgerError,
    NativeAccount,
};

verus! {

/// The vault's on-ledger state record.
#[derive(Clone, Copy, PartialEq, Eq, Structural, Debug)]
pub struct VaultState {
    pub maker: u64,
    pub taker: u64,
    pub state_bump: u8,
    pub vault_bump: u8,
}

impl VaultState {
    /// The derived address of the balance-holding vault account.
    pub open spec fn vault_address(self) -> AccountId {
        AccountId::Derived(Seeds::Vault { maker: self.maker }, self.vault_bump)
    }

    /// Recompute the vault account's derived address.
    pub fn derive_vault_address(&self) -> (r: AccountId)
        ensures
            r == self.vault_address(),
    {
        AccountId::Derived(Seeds::Vault { maker: self.maker }, self.vault_bump)
    }
}

/// The bump bytes the runtime found while deriving the state record and
/// the vault account.
#[derive(Clone, Copy, PartialEq, Eq, Structural, Debug)]
pub struct VaultBumps {
    pub vault_state: u8,
    pub vault: u8,
}

/// The accounts initialization names: the maker, the named taker, the
/// state record it creates, and the pre-derived vault account.
pub struct Initialize {
    pub maker: u64,
    pub taker: u64,
    pub vault_state: Option<VaultState>,
    pub vault: NativeAccount,
}

/// What initialization reports, and on success the record it writes: the
/// record must not exist yet and the vault account must sit at the address
/// the maker's key derives.
pub open spec fn spec_initialize(pre: Initialize, bumps: VaultBumps) -> Result<
    VaultState,
    LedgerError,
> {
    if pre.vault_state is Some {
        Err(LedgerError::AccountInUse)
    } else if pre.vault.addr != AccountId::Derived(
        Seeds::Vault { maker: pre.maker },
        bumps.vault,
    ) {
        Err(LedgerError::WrongAddress)
    } else {
        Ok(
            VaultState {
                maker: pre.maker,
                taker: pre.taker,
                state_bump: bumps.vault_state,
                vault_bump: bumps.vault,
            },
        )
    }
}

/// Create the vault: write the state record naming maker and taker with
/// both derivation bumps.  No value moves.
pub fn initialize(ctx: &mut Initialize, bumps: &VaultBumps) -> (r: Result<(), LedgerError>)
    ensures
        ({
            let step = spec_initialize(*old(ctx), *bumps);
            match step {
                Err(e) => r == Err::<(), LedgerError>(e) && *final(ctx) == *old(ctx),
                Ok(st) => r == Ok::<(), LedgerError>(()) && *final(ctx) == (Initialize {
                    vault_state: Some(st),
                    ..*old(ctx)
                }),
            }
        }),
{
    if ctx.vault_state.is_some() {
        return Err(LedgerError::AccountInUse);
    }
    if ctx.vault.addr != AccountId::Derived(Seeds::Vault { maker: ctx.maker }, bumps.vault) {
        return Err(LedgerError::WrongAddress);
    }
    ctx.vault_state = Some(
        VaultState {
            maker: ctx.maker,
            taker: ctx.taker,
            state_bump: bumps.vault_state,
            vault_bump: bumps.vault,
        },
    );
    Ok(())
}

/// The accounts a deposit names: the maker's own native account, the state
/// record, and the vault account.
pub struct Deposit {
    pub maker: NativeAccount,
    pub vault_state: Option<VaultState>,
    pub vault: NativeAccount,
}

/// What a deposit reports: the record must exist, the maker must be the
/// recorded one, the vault account must sit at its recorded derivation,
/// and the maker must hold the amount.
pub open spec fn spec_deposit(pre: Deposit, amount: u64) -> Result<(), LedgerError> {
    if pre.vault_state is None {
        Err(LedgerError::MissingAccount)
    } else {
        let st = pre.vault_state->0;
        if pre.maker.addr != AccountId::User(st.maker) {
            Err(LedgerError::WrongAddress)
        } else if pre.vault.addr != st.vault_address() {
            Err(LedgerError::WrongAddress)
        } else {
            let leg = spec_check_native_transfer(
                pre.maker,
                pre.vault,
                Authority::Keypair(st.maker),
                amount,
            );
            if leg is Err {
                Err(leg->Err_0)
            } else {
                Ok(())
            }
        }
    }
}

/// Deposit native currency: move `amount` from the maker into the vault
/// account, under the maker's own signature — or change nothing.
pub fn deposit(ctx: &mut Deposit, amount: u64) -> (r: Result<(), LedgerError>)
    ensures
        ({
            let step = spec_deposit(*old(ctx), amount);
            match step {
                Err(e) => r == Err::<(), LedgerError>(e) && *final(ctx) == *old(ctx),
                Ok(_) => r == Ok::<(), LedgerError>(()) && *final(ctx) == (Deposit {
                    maker: NativeAccount {
                        lamports: (old(ctx).maker.lamports - amount) as u64,
                        ..old(ctx).maker
                    },
                    vault: NativeAccount {
                        lamports: (old(ctx).vault.lamports + amount) as u64,
                        ..old(ctx).vault
                    },
                    ..*old(ctx)
                }),
            }
        }),
{
    let st = match ctx.vault_state {
        Some(st) => st,
        None => {
            return Err(LedgerError::MissingAccount);
        },
    };
    if ctx.maker.addr != AccountId::User(st.maker) {
        return Err(LedgerError::WrongAddress);
    }
    if ctx.vault.addr != st.derive_vault_address() {
        return Err(LedgerError::WrongAddress);
    }
    let maker_auth = Authority::Keypair(st.maker);
    if let Err(e) = check_native_transfer(&ctx.maker, &ctx.vault, &maker_auth, amount) {
        return Err(e);
    }
    apply_native_transfer(&mut ctx.maker, &mut ctx.vault, amount);
    Ok(())
}

/// The accounts a cancellation names: the maker's own native account, the
/// state record it closes, and the vault account it empties.
pub struct Cancel {
    pub maker: NativeAccount,
    pub vault_state: Option<VaultState>,
    pub vault: NativeAccount,
}

/// What a cancellation reports: the record must exist, the maker must be
/// the recorded one, the vault account must sit at its recorded
/// derivation, the vault's derivation proof must reproduce that address,
/// and the maker's balance must have room for the holdings.
pub open spec fn spec_cancel(pre: Cancel) -> Result<(), LedgerError> {
    if pre.vault_state is None {
        Err(LedgerError::MissingAccount)
    } else {
        let st = pre.vault_state->0;
        if pre.maker.addr != AccountId::User(st.maker) {
            Err(LedgerError::WrongAddress)
        } else if pre.vault.addr != st.vault_address() {
            Err(LedgerError::WrongAddress)
        } else {
            let leg = spec_check_native_transfer(
                pre.vault,
                pre.maker,
                Authority::Program(Seeds::Vault { maker: st.maker }, st.vault_bump),
                pre.vault.lamports,
            );
            if leg is Err {
                Err(leg->Err_0)
            } else {
                Ok(())
            }
        }
    }
}

/// Cancel the vault: the vault's derivation proof returns its entire
/// current holdings to the maker, and the state record closes to the
/// maker — or nothing changes.
pub fn cancel(ctx: &mut Cancel) -> (r: Result<(), LedgerError>)
    ensures
        ({
            let step = spec_cancel(*old(ctx));
            match step {
                Err(e) => r == Err::<(), LedgerError>(e) && *final(ctx) == *old(ctx),
                Ok(_) => r == Ok::<(), LedgerError>(()) && *final(ctx) == (Cancel {
                    maker: NativeAccount {
                        lamports: (old(ctx).maker.lamports + old(ctx).vault.lamports) as u64,
                        ..old(ctx).maker
                    },
                    vault: NativeAccount { lamports: 0, ..old(ctx).vault },
                    vault_state: None,
                }),
            }
        }),
{
    let st = match ctx.vault_state {
        Some(st) => st,
        None => {
            return Err(LedgerError::MissingAccount);
        },
    };
    if ctx.maker.addr != AccountId::User(st.maker) {
        return Err(LedgerError::WrongAddress);
    }
    if ctx.vault.addr != st.derive_vault_address() {
        return Err(LedgerError::WrongAddress);
    }
    let vault_auth = Authority::Program(Seeds::Vault { maker: st.maker }, st.vault_bump);
    let holdings = ctx.vault.lamports;
    if let Err(e) = check_native_transfer(&ctx.vault, &ctx.maker, &vault_auth, holdings) {
        return Err(e);
    }
    apply_native_transfer(&mut ctx.vault, &mut ctx.maker, holdings);
    ctx.vault_state = None;
    Ok(())
}

/// The accounts a withdrawal names: the maker's own native account, the
/// named taker, the state record it closes, and the vault account it
/// empties.  The taker is referenced but never paid.
pub struct Withdraw {
    pub maker: NativeAccount,
    pub taker: u64,
    pub vault_state: Option<VaultState>,
    pub vault: NativeAccount,
}

/// What a withdrawal reports: exactly the conditions of [`spec_cancel`]
/// on the same maker, record and vault.
pub open spec fn spec_withdraw(pre: Withdraw) -> Result<(), LedgerError> {
    spec_cancel(Cancel { maker: pre.maker, vault_state: pre.vault_state, vault: pre.vault })
}

/// Withdraw the vault: identical in effect to [`cancel`] — the entire
/// holdings return to the maker, not the taker, and the record closes.
pub fn withdraw(ctx: &mut Withdraw) -> (r: Result<(), LedgerError>)
    ensures
        ({
            let step = spec_withdraw(*old(ctx));
            match step {
                Err(e) => r == Err::<(), LedgerError>(e) && *final(ctx) == *old(ctx),
                Ok(_) => r == Ok::<(), LedgerError>(()) && *final(ctx) == (Withdraw {
                    maker: NativeAccount {
                        lamports: (old(ctx).maker.lamports + old(ctx).vault.lamports) as u64,
                        ..old(ctx).maker
                    },
                    vault: NativeAccount { lamports: 0, ..old(ctx).vault },
                    vault_state: None,
                    taker: old(ctx).taker,
                }),
            }
        }),
{
    let st = match ctx.vault_state {
        Some(st) => st,
        None => {
            return Err(LedgerError::MissingAccount);
        },
    };
    if ctx.maker.addr != AccountId::User(st.maker) {
        return Err(LedgerError::WrongAddress);
    }
    if ctx.vault.addr != st.derive_vault_address() {
        return Err(LedgerError::WrongAddress);
    }
    let vault_auth = Authority::Program(Seeds::Vault { maker: st.maker }, st.vault_bump);
    let holdings = ctx.vault.lamports;
    if let Err(e) = check_native_transfer(&ctx.vault, &ctx.maker, &vault_auth, holdings) {
        return Err(e);
    }
    apply_native_transfer(&mut ctx.vault, &mut ctx.maker, holdings);
    ctx.vault_state = None;
    Ok(())
}

/// Withdrawal and cancellation are behaviorally identical: on the same
/// maker, record and vault they report the same outcome, and on success
/// both leave the same balances and no record.
pub proof fn lemma_cancel_withdraw_agree(c: Cancel, w: Withdraw)
    requires
        w.maker == c.maker,
        w.vault_state == c.vault_state,
        w.vault == c.vault,
    ensures
        spec_withdraw(w) == spec_cancel(c),
{
}

} // verus!
