//! Execution engine for atomic cross-chain swaps.
//!
//! Two parties exchange assets on two different ledgers using hash
//! time-locked contracts. This crate holds the verified core: the
//! per-swap state machine, the derivation of the next on-chain action
//! from observed ledger state, the block cache, the at-most-once event
//! store, and the deterministic key material derived from a seed.

pub mod actions;
pub mod asset;
pub mod bitcoin;
pub mod cache;
pub mod database;
pub mod digest;
pub mod encoding;
pub mod facade;
pub mod halbit;
pub mod hbit;
pub mod herc20;
pub mod http;
pub mod ledger;
pub mod orders;
pub mod queries;
pub mod secret;
pub mod state;
pub mod swap;
pub mod types;
pub mod wallet;

use vstd::prelude::*;

verus! {

/// Which protocol party the local process plays. Alice proposes the
/// swap and funds the alpha ledger first; Bob accepts or declines and
/// funds the beta ledger second.
#[derive(Clone, Copy, Debug, PartialEq, Eq, Structural)]
pub enum Role {
    Alice,
    Bob,
}

/// Which leg of the swap a value belongs to.
#[derive(Clone, Copy, Debug, PartialEq, Eq, Structural)]
pub enum Side {
    Alpha,
    Beta,
}

impl Side {
    /// The other leg of the swap.
    pub fn other(self) -> (r: Side)
        ensures
            self is Alpha ==> r is Beta,
            self is Beta ==> r is Alpha,
    {
        match self {
            Side::Alpha => Side::Beta,
            Side::Beta => Side::Alpha,
        }
    }
}

} // verus!
