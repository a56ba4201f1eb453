//! Addresses and derivation proofs.
//!
//! Every program-owned account sits at a derived address computed from a fixed
//! textual tag plus a sequence of seed inputs and a bump byte.  A program
//! authorizes a transfer out of such an account by re-deriving the address
//! from the same inputs; no caller-supplied key is ever trusted for that.

use vstd::prelude::*;

verus! {

/// Seed material for a derived address: the fixed tag of the account class
/// together with the key/byte inputs that class derives from.
#[derive(Clone, Copy, PartialEq, Eq, Structural, Debug)]
pub enum Seeds {
    /// Tag `escrow`: the maker's key and the order's sequence number.
    Escrow { maker: u64, seed: u64 },
    /// Tag `config`: the pool sequence number and the two reserve mint keys.
    Config { seed: u64, mint_x: u64, mint_y: u64 },
    /// Tag `lp`: the pool configuration record's address, given here by the
    /// derivation inputs that determine that address.
    Lp { seed: u64, mint_x: u64, mint_y: u64, config_bump: u8 },
    /// Tag `auth`: the pool signing authority, with no further seeds.
    Auth,
    /// Tag `VaultState`: the vault maker's key.
    VaultState { maker: u64 },
    /// Tag `vault`: the vault maker's key.
    Vault { maker: u64 },
}

/// An account address: either an ordinary key-pair address or a derived one.
/// A derived address carries the seeds and the bump byte it was created with,
/// so two derived addresses are equal exactly when their inputs are.
#[derive(Clone, Copy, PartialEq, Eq, Structural, Debug)]
pub enum AccountId {
    User(u64),
    Derived(Seeds, u8),
}

/// A proof of authority presented with a value movement: either the holder
/// of an ordinary key signed, or a program signs for one of its own derived
/// addresses by presenting the seeds and bump that reproduce it.
#[derive(Clone, Copy, PartialEq, Eq, Structural, Debug)]
pub enum Authority {
    Keypair(u64),
    Program(Seeds, u8),
}

impl Authority {
    /// The address this proof speaks for.
    pub open spec fn address(self) -> AccountId {
        match self {
            Authority::Keypair(k) => AccountId::User(k),
            Authority::Program(seeds, bump) => AccountId::Derived(seeds, bump),
        }
    }

    /// An authority may move value out of an account only if it reproduces
    /// the account's owner address exactly.
    pub open spec fn authorizes(self, owner: AccountId) -> bool {
        self.address() == owner
    }

    /// Recompute the address this proof speaks for and compare it with the
    /// owner of the account to be debited.
    pub fn check(&self, owner: AccountId) -> (r: bool)
        ensures
            r == self.authorizes(owner),
    {
        match self {
            Authority::Keypair(k) => owner == AccountId::User(*k),
            Authority::Program(seeds, bump) => owner == AccountId::Derived(*seeds, *bump),
        }
    }
}

} // verus!
