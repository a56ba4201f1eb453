//! The asset-transfer interface the instructions move value through: mints,
//! per-owner balance accounts, native-currency accounts, and the checked
//! operations on them.
//!
//! Each operation is split into a pure check, which names the first failing
//! condition, and an application, which is only called once every leg of an
//! instruction has been checked: an instruction therefore either performs all
//! of its transfers or leaves every balance unchanged.

use vstd::prelude::*;

use crate::addr::{AccountId, Authority};

verus! {

/// The structural failures of the account layer: a transfer, mint, burn or
/// close stops at the first condition that does not hold.
#[derive(Clone, Copy, PartialEq, Eq, Structural, Debug)]
pub enum LedgerError {
    /// An account does not sit at the address its seeds derive.
    WrongAddress,
    /// An authority does not reproduce the debited account's owner.
    WrongOwner,
    /// A balance account's mint, or the stated decimal count, is not the expected one.
    WrongMint,
    /// A named account no longer exists (it was closed).
    MissingAccount,
    /// A named account already exists where a fresh one must be created.
    AccountInUse,
    /// The debited balance is smaller than the amount to move.
    InsufficientFunds,
    /// The credited balance would exceed what a 64-bit amount can hold.
    Overflow,
    /// A balance account can only be closed once it holds nothing.
    NonZeroBalance,
}

/// The identifier and metadata record of one fungible asset: its address,
/// decimal precision, outstanding supply, and minting authority.
#[derive(Clone, Copy, PartialEq, Eq, Structural, Debug)]
pub struct MintAccount {
    pub addr: AccountId,
    pub decimals: u8,
    pub supply: u64,
    pub authority: AccountId,
}

/// A per-(mint, owner) balance account holding a quantity of one asset.
#[derive(Clone, Copy, PartialEq, Eq, Structural, Debug)]
pub struct TokenAccount {
    pub mint: AccountId,
    pub owner: AccountId,
    pub amount: u64,
}

/// An account holding native currency only.
#[derive(Clone, Copy, PartialEq, Eq, Structural, Debug)]
pub struct NativeAccount {
    pub addr: AccountId,
    pub lamports: u64,
}

/// The first failing condition of a checked transfer of `amount` units of
/// `mint` out of `from` into `to`, or `Ok` when all conditions hold:
/// both accounts must carry the named mint, the stated decimal count must be
/// the mint's, the authority must reproduce the debited owner, the debited
/// balance must suffice, and the credited balance must not overflow.
pub open spec fn spec_check_transfer(
    from: TokenAccount,
    to: TokenAccount,
    mint: MintAccount,
    auth: Authority,
    amount: u64,
    decimals: u8,
) -> Result<(), LedgerError> {
    if from.mint != mint.addr {
        Err(LedgerError::WrongMint)
    } else if to.mint != mint.addr {
        Err(LedgerError::WrongMint)
    } else if decimals != mint.decimals {
        Err(LedgerError::WrongMint)
    } else if !auth.authorizes(from.owner) {
        Err(LedgerError::WrongOwner)
    } else if from.amount < amount {
        Err(LedgerError::InsufficientFunds)
    } else if amount > u64::MAX - to.amount {
        Err(LedgerError::Overflow)
    } else {
        Ok(())
    }
}

/// Check every condition of a transfer without moving anything.
pub fn check_transfer(
    from: &TokenAccount,
    to: &TokenAccount,
    mint: &MintAccount,
    auth: &Authority,
    amount: u64,
    decimals: u8,
) -> (r: Result<(), LedgerError>)
    ensures
        r == spec_check_transfer(*from, *to, *mint, *auth, amount, decimals),
{
    if from.mint != mint.addr {
        Err(LedgerError::WrongMint)
    } else if to.mint != mint.addr {
        Err(LedgerError::WrongMint)
    } else if decimals != mint.decimals {
        Err(LedgerError::WrongMint)
    } else if !auth.check(from.owner) {
        Err(LedgerError::WrongOwner)
    } else if from.amount < amount {
        Err(LedgerError::InsufficientFunds)
    } else if amount > u64::MAX - to.amount {
        Err(LedgerError::Overflow)
    } else {
        Ok(())
    }
}

/// Move a checked amount between two balance accounts.
pub fn apply_transfer(from: &mut TokenAccount, to: &mut TokenAccount, amount: u64)
    requires
        old(from).amount >= amount,
        old(to).amount + amount <= u64::MAX,
    ensures
        *final(from) == (TokenAccount { amount: (old(from).amount - amount) as u64, ..*old(from) }),
        *final(to) == (TokenAccount { amount: (old(to).amount + amount) as u64, ..*old(to) }),
{
    from.amount = from.amount - amount;
    to.amount = to.amount + amount;
}

/// The first failing condition of minting `amount` fresh units of `mint` to
/// `to`, or `Ok`: the account must carry the mint, the authority must
/// reproduce the mint's own authority, and neither the supply nor the
/// credited balance may overflow.
pub open spec fn spec_check_mint_to(
    mint: MintAccount,
    to: TokenAccount,
    auth: Authority,
    amount: u64,
) -> Result<(), LedgerError> {
    if to.mint != mint.addr {
        Err(LedgerError::WrongMint)
    } else if !auth.authorizes(mint.authority) {
        Err(LedgerError::WrongOwner)
    } else if amount > u64::MAX - mint.supply {
        Err(LedgerError::Overflow)
    } else if amount > u64::MAX - to.amount {
        Err(LedgerError::Overflow)
    } else {
        Ok(())
    }
}

/// Check every condition of a mint without minting.
pub fn check_mint_to(
    mint: &MintAccount,
    to: &TokenAccount,
    auth: &Authority,
    amount: u64,
) -> (r: Result<(), LedgerError>)
    ensures
        r == spec_check_mint_to(*mint, *to, *auth, amount),
{
    if to.mint != mint.addr {
        Err(LedgerError::WrongMint)
    } else if !auth.check(mint.authority) {
        Err(LedgerError::WrongOwner)
    } else if amount > u64::MAX - mint.supply {
        Err(LedgerError::Overflow)
    } else if amount > u64::MAX - to.amount {
        Err(LedgerError::Overflow)
    } else {
        Ok(())
    }
}

/// Mint a checked amount: the supply and the credited balance grow together.
pub fn apply_mint_to(mint: &mut MintAccount, to: &mut TokenAccount, amount: u64)
    requires
        old(mint).supply + amount <= u64::MAX,
        old(to).amount + amount <= u64::MAX,
    ensures
        *final(mint) == (MintAccount { supply: (old(mint).supply + amount) as u64, ..*old(mint) }),
        *final(to) == (TokenAccount { amount: (old(to).amount + amount) as u64, ..*old(to) }),
{
    mint.supply = mint.supply + amount;
    to.amount = to.amount + amount;
}

/// The first failing condition of burning `amount` units of `mint` held in
/// `from`, or `Ok`: the account must carry the mint, the authority must
/// reproduce the account's owner, and both the balance and the outstanding
/// supply must cover the amount.
pub open spec fn spec_check_burn(
    mint: MintAccount,
    from: TokenAccount,
    auth: Authority,
    amount: u64,
) -> Result<(), LedgerError> {
    if from.mint != mint.addr {
        Err(LedgerError::WrongMint)
    } else if !auth.authorizes(from.owner) {
        Err(LedgerError::WrongOwner)
    } else if from.amount < amount {
        Err(LedgerError::InsufficientFunds)
    } else if mint.supply < amount {
        Err(LedgerError::InsufficientFunds)
    } else {
        Ok(())
    }
}

/// Check every condition of a burn without burning.
pub fn check_burn(
    mint: &MintAccount,
    from: &TokenAccount,
    auth: &Authority,
    amount: u64,
) -> (r: Result<(), LedgerError>)
    ensures
        r == spec_check_burn(*mint, *from, *auth, amount),
{
    if from.mint != mint.addr {
        Err(LedgerError::WrongMint)
    } else if !auth.check(from.owner) {
        Err(LedgerError::WrongOwner)
    } else if from.amount < amount {
        Err(LedgerError::InsufficientFunds)
    } else if mint.supply < amount {
        Err(LedgerError::InsufficientFunds)
    } else {
        Ok(())
    }
}

/// Burn a checked amount: the balance and the supply shrink together.
pub fn apply_burn(mint: &mut MintAccount, from: &mut TokenAccount, amount: u64)
    requires
        old(from).amount >= amount,
        old(mint).supply >= amount,
    ensures
        *final(mint) == (MintAccount { supply: (old(mint).supply - amount) as u64, ..*old(mint) }),
        *final(from) == (TokenAccount { amount: (old(from).amount - amount) as u64, ..*old(from) }),
{
    mint.supply = mint.supply - amount;
    from.amount = from.amount - amount;
}

/// The first failing condition of closing a balance account, or `Ok`: the
/// authority must reproduce the account's owner and the balance must be
/// empty.  The account's rent returns to the destination; the caller then
/// removes the account.
pub open spec fn spec_check_close(acct: TokenAccount, auth: Authority) -> Result<
    (),
    LedgerError,
> {
    if !auth.authorizes(acct.owner) {
        Err(LedgerError::WrongOwner)
    } else if acct.amount != 0 {
        Err(LedgerError::NonZeroBalance)
    } else {
        Ok(())
    }
}

/// Check every condition of an account closure.
pub fn check_close(acct: &TokenAccount, auth: &Authority) -> (r: Result<(), LedgerError>)
    ensures
        r == spec_check_close(*acct, *auth),
{
    if !auth.check(acct.owner) {
        Err(LedgerError::WrongOwner)
    } else if acct.amount != 0 {
        Err(LedgerError::NonZeroBalance)
    } else {
        Ok(())
    }
}

/// The first failing condition of a native-currency transfer, or `Ok`:
/// native accounts are owned by their own address, so the authority must
/// reproduce the debited address itself.
pub open spec fn spec_check_native_transfer(
    from: NativeAccount,
    to: NativeAccount,
    auth: Authority,
    amount: u64,
) -> Result<(), LedgerError> {
    if !auth.authorizes(from.addr) {
        Err(LedgerError::WrongOwner)
    } else if from.lamports < amount {
        Err(LedgerError::InsufficientFunds)
    } else if amount > u64::MAX - to.lamports {
        Err(LedgerError::Overflow)
    } else {
        Ok(())
    }
}

/// Check every condition of a native transfer without moving anything.
pub fn check_native_transfer(
    from: &NativeAccount,
    to: &NativeAccount,
    auth: &Authority,
    amount: u64,
) -> (r: Result<(), LedgerError>)
    ensures
        r == spec_check_native_transfer(*from, *to, *auth, amount),
{
    if !auth.check(from.addr) {
        Err(LedgerError::WrongOwner)
    } else if from.lamports < amount {
        Err(LedgerError::InsufficientFunds)
    } else if amount > u64::MAX - to.lamports {
        Err(LedgerError::Overflow)
    } else {
        Ok(())
    }
}

/// Move a checked amount of native currency.
pub fn apply_native_transfer(from: &mut NativeAccount, to: &mut NativeAccount, amount: u64)
    requires
        old(from).lamports >= amount,
        old(to).lamports + amount <= u64::MAX,
    ensures
        *final(from) == (NativeAccount { lamports: (old(from).lamports - amount) as u64, ..*old(from) }),
        *final(to) == (NativeAccount { lamports: (old(to).lamports + amount) as u64, ..*old(to) }),
{
    from.lamports = from.lamports - amount;
    to.lamports = to.lamports + amount;
}

/// No authority moves value out of an account whose owner address it does not
/// reproduce: a transfer presented with such a proof fails before any balance
/// changes, with the failure the owner check produces, unless a mint check
/// fails first.
pub proof fn lemma_forged_authority_rejected(
    from: TokenAccount,
    to: TokenAccount,
    mint: MintAccount,
    auth: Authority,
    amount: u64,
    decimals: u8,
)
    requires
        !auth.authorizes(from.owner),
    ensures
        spec_check_transfer(from, to, mint, auth, amount, decimals) is Err,
        (from.mint == mint.addr && to.mint == mint.addr && decimals == mint.decimals)
            ==> spec_check_transfer(from, to, mint, auth, amount, decimals)
                == Result::<(), LedgerError>::Err(LedgerError::WrongOwner),
{
}

} // verus!
