//! The two asset kinds a swap leg can carry: an amount of bitcoin in
//! satoshi, and a quantity of an ERC20 token in wei.

use vstd::prelude::*;

use crate::encoding::{dec_of, dec_valid, dec_val, parse_dec_u128, to_dec_u128, to_dec_u64};
use crate::types::{bytes_eq, EthAddress};

verus! {

/// An amount of bitcoin, counted in satoshi.
#[derive(Clone, Copy, Debug, PartialEq, Eq, Structural)]
pub struct Bitcoin {
    pub sats: u64,
}

impl Bitcoin {
    pub fn from_sat(sats: u64) -> (r: Bitcoin)
        ensures
            r.sats == sats,
    {
        Bitcoin { sats }
    }

    pub fn zero() -> (r: Bitcoin)
        ensures
            r.sats == 0,
    {
        Bitcoin { sats: 0 }
    }

    /// The amount written in decimal satoshi.
    pub fn to_sat_string(&self) -> (r: String)
        ensures
            r@ == dec_of(self.sats as nat),
    {
        to_dec_u64(self.sats)
    }
}

/// A quantity of an ERC20 token, counted in wei.
#[derive(Clone, Copy, Debug, PartialEq, Eq, Structural)]
pub struct Erc20Quantity {
    pub wei: u128,
}

impl Erc20Quantity {
    pub fn from_wei(wei: u128) -> (r: Erc20Quantity)
        ensures
            r.wei == wei,
    {
        Erc20Quantity { wei }
    }

    pub fn zero() -> (r: Erc20Quantity)
        ensures
            r.wei == 0,
    {
        Erc20Quantity { wei: 0 }
    }

    /// Parses a decimal string of wei. Fails on anything but plain
    /// decimal digits, and on values that do not fit 128 bits.
    pub fn from_wei_dec_str(s: &str) -> (r: Option<Erc20Quantity>)
        ensures
            r is Some <==> dec_valid(s@) && dec_val(s@) <= u128::MAX,
            r is Some ==> r->0.wei as nat == dec_val(s@),
    {
        match parse_dec_u128(s) {
            Some(wei) => Some(Erc20Quantity { wei }),
            None => None,
        }
    }

    /// The quantity written in decimal wei.
    pub fn to_wei_dec_str(&self) -> (r: String)
        ensures
            r@ == dec_of(self.wei as nat),
    {
        to_dec_u128(self.wei)
    }
}

/// An ERC20 asset: which token contract, and how much of it.
#[derive(Clone, Copy, Debug)]
pub struct Erc20 {
    pub token_contract: EthAddress,
    pub quantity: Erc20Quantity,
}

impl Erc20 {
    pub fn new(token_contract: EthAddress, quantity: Erc20Quantity) -> (r: Erc20)
        ensures
            r.token_contract@ == token_contract@,
            r.quantity == quantity,
    {
        Erc20 { token_contract, quantity }
    }

    /// Whether two assets are the same token in the same quantity.
    pub fn same_asset(&self, other: &Erc20) -> (r: bool)
        ensures
            r <==> self.token_contract@ == other.token_contract@ && self.quantity
                == other.quantity,
    {
        bytes_eq(&self.token_contract.bytes, &other.token_contract.bytes) && self.quantity.wei
            == other.quantity.wei
    }
}

impl PartialEq for Erc20 {
    fn eq(&self, other: &Erc20) -> (r: bool) {
        self.same_asset(other)
    }
}

impl vstd::std_specs::cmp::PartialEqSpecImpl for Erc20 {
    open spec fn obeys_eq_spec() -> bool {
        true
    }

    open spec fn eq_spec(&self, other: &Erc20) -> bool {
        self.token_contract@ == other.token_contract@ && self.quantity == other.quantity
    }
}

} // verus!
