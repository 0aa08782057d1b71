//! The ledgers a swap leg can live on.

use vstd::prelude::*;

use crate::types::ChainId;

verus! {

/// A Bitcoin network.
#[derive(Clone, Copy, Debug, PartialEq, Eq, Structural)]
pub enum Bitcoin {
    Mainnet,
    Testnet,
    Regtest,
}

impl Bitcoin {
    /// Whether keys for this network carry mainnet prefixes when
    /// serialized.
    pub fn is_mainnet(self) -> (r: bool)
        ensures
            r <==> self == Bitcoin::Mainnet,
    {
        match self {
            Bitcoin::Mainnet => true,
            Bitcoin::Testnet => false,
            Bitcoin::Regtest => false,
        }
    }
}

/// An Ethereum-family ledger, identified by its chain id.
#[derive(Clone, Copy, Debug, PartialEq, Eq, Structural)]
pub struct Ethereum {
    pub chain_id: ChainId,
}

impl Ethereum {
    pub fn new(chain_id: ChainId) -> (r: Ethereum)
        ensures
            r.chain_id == chain_id,
    {
        Ethereum { chain_id }
    }
}

} // verus!
