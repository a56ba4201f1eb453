//! A settlement/custody layer for an account-based ledger: a constant-product
//! automated market maker, a bilateral token-swap escrow in two variants, and a
//! native-currency vault.  Every persistent value lives in an account at a
//! program-derived address; instructions validate the accounts they name,
//! check their business rules, and move value through checked transfers,
//! atomically: an instruction either performs all of its effects or none.

pub mod addr;
pub mod token;
pub mod curve;
pub mod amm;
pub mod escrow_a;
pub mod escrow_b;
pub mod vault;

use vstd::prelude::*;

verus! {

/// The fee ceiling in basis points: 10 000 basis points is 100%.
pub const MAX_FEE: u16 = 10_000;

} // verus!
