//! Gas amounts.
use vstd::prelude::*;

verus! {

/// Gas units in one teragas.
pub const TGAS: u64 = 1_000_000_000_000;

/// Teragas given to each remote call that the store issues.
pub const CREATE_ACCOUNT_TGAS: u64 = 70;

/// `n` teragas, in gas units.
pub fn tgas(n: u64) -> (r: u64)
    requires
        n * TGAS <= u64::MAX,
    ensures
        r == n * TGAS,
{
    n * TGAS
}

} // verus!
