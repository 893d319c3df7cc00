//! A storefront ledger: a product catalog guarded by caller checks, purchases
//! and restocks against it, and the decisions around deploying a companion
//! token contract and paying rewards through it.
use vstd::prelude::*;

pub mod account;
pub mod catalog;
pub mod deploy;
pub mod error;
pub mod gas;
pub mod laws;
pub mod product;
pub mod purchase;
pub mod reward;
pub mod store;

verus! {

/// One NEAR in yoctoNEAR.
pub const ONE_NEAR: u128 = 1_000_000_000_000_000_000_000_000;

/// Price of deploying the companion token contract, and the balance it is funded with.
pub const TOKEN_BALANCE: u128 = ONE_NEAR * 4;

/// Deposit attached to calls that carry no payment.
pub const NO_DEPOSIT: u128 = 0;

/// The authorization deposit: exactly one yoctoNEAR.
pub const ONE_YOCTO: u128 = 1;

/// Deposit attached to the buyer's storage registration on the token contract.
pub const STORAGE_DEPOSIT: u128 = 10_000_000_000_000_000_000_000;

} // verus!
