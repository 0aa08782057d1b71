//! The BTC/DAI order book entries the market view reports, and the
//! rule that filters them: an order is executable only when its swap
//! protocol carries exactly the safe expiry offsets this engine would
//! choose itself.

use vstd::prelude::*;

use crate::asset;
use crate::http::{OrderId, Position};
use crate::Role;

verus! {

/// The expiry offset, in seconds, of the leg that is funded first. It
/// must leave the full margin, since the counterparty redeems against
/// it.
pub const FIRST_FUNDED_EXPIRY_OFFSET_SECS: u32 = 86400;

/// The expiry offset, in seconds, of the leg that is funded second:
/// half the first leg's, so the side funded first can safely redeem
/// before its own refund window opens.
pub const SECOND_FUNDED_EXPIRY_OFFSET_SECS: u32 = 43200;

/// Which protocol pair a swap runs, with the expiry offset of each
/// leg in seconds.
#[derive(Clone, Copy, Debug, PartialEq, Eq, Structural)]
pub enum SwapProtocol {
    HbitHerc20 { hbit_expiry_offset: u32, herc20_expiry_offset: u32 },
    Herc20Hbit { herc20_expiry_offset: u32, hbit_expiry_offset: u32 },
}

impl SwapProtocol {
    /// The protocol pair for an order, with the engine's own safe
    /// expiry offsets: a sell order moves bitcoin away, so its swap
    /// funds the ERC20 leg first; a buy order the other way around.
    /// The role does not change the offsets — both parties must agree
    /// on them for either to consider the order executable.
    pub fn new(role: Role, position: Position) -> (r: SwapProtocol)
        ensures
            r == spec_safe_protocol(position),
    {
        let _ = role;
        match position {
            Position::Sell => SwapProtocol::Herc20Hbit {
                herc20_expiry_offset: FIRST_FUNDED_EXPIRY_OFFSET_SECS,
                hbit_expiry_offset: SECOND_FUNDED_EXPIRY_OFFSET_SECS,
            },
            Position::Buy => SwapProtocol::HbitHerc20 {
                hbit_expiry_offset: FIRST_FUNDED_EXPIRY_OFFSET_SECS,
                herc20_expiry_offset: SECOND_FUNDED_EXPIRY_OFFSET_SECS,
            },
        }
    }
}

/// The safe protocol pair for each position.
pub open spec fn spec_safe_protocol(position: Position) -> SwapProtocol {
    match position {
        Position::Sell => SwapProtocol::Herc20Hbit {
            herc20_expiry_offset: FIRST_FUNDED_EXPIRY_OFFSET_SECS,
            hbit_expiry_offset: SECOND_FUNDED_EXPIRY_OFFSET_SECS,
        },
        Position::Buy => SwapProtocol::HbitHerc20 {
            hbit_expiry_offset: FIRST_FUNDED_EXPIRY_OFFSET_SECS,
            herc20_expiry_offset: SECOND_FUNDED_EXPIRY_OFFSET_SECS,
        },
    }
}

/// The safe expiry offsets of an hbit-then-herc20 swap: the bitcoin
/// leg is funded first.
pub fn expiry_offsets_hbit_herc20() -> (r: (u32, u32))
    ensures
        r.0 == FIRST_FUNDED_EXPIRY_OFFSET_SECS,
        r.1 == SECOND_FUNDED_EXPIRY_OFFSET_SECS,
{
    (FIRST_FUNDED_EXPIRY_OFFSET_SECS, SECOND_FUNDED_EXPIRY_OFFSET_SECS)
}

/// The safe expiry offsets of a herc20-then-hbit swap: the ERC20 leg
/// is funded first.
pub fn expiry_offsets_herc20_hbit() -> (r: (u32, u32))
    ensures
        r.0 == FIRST_FUNDED_EXPIRY_OFFSET_SECS,
        r.1 == SECOND_FUNDED_EXPIRY_OFFSET_SECS,
{
    (FIRST_FUNDED_EXPIRY_OFFSET_SECS, SECOND_FUNDED_EXPIRY_OFFSET_SECS)
}

/// One BTC/DAI order: how much bitcoin at what price in wei, which
/// side, and the swap protocol a taker would run.
#[derive(Clone, Copy, Debug)]
pub struct BtcDaiOrder {
    pub id: OrderId,
    pub position: Position,
    pub quantity: asset::Bitcoin,
    pub price: asset::Erc20Quantity,
    pub swap_protocol: SwapProtocol,
}

/// Relies on `rand::random`: a fresh random 128-bit order id. Two
/// calls may and should differ, so nothing is stated about the value.
#[verifier::external_body]
fn random_order_id() -> OrderId {
    OrderId { value: rand::random() }
}

impl BtcDaiOrder {
    /// A fresh sell order under a new random id.
    pub fn sell(quantity: asset::Bitcoin, price: asset::Erc20Quantity, swap_protocol: SwapProtocol)
        -> (r: BtcDaiOrder)
        ensures
            r.position == Position::Sell,
            r.quantity == quantity,
            r.price == price,
            r.swap_protocol == swap_protocol,
    {
        BtcDaiOrder { id: random_order_id(), position: Position::Sell, quantity, price, swap_protocol }
    }

    /// A fresh buy order under a new random id.
    pub fn buy(quantity: asset::Bitcoin, price: asset::Erc20Quantity, swap_protocol: SwapProtocol)
        -> (r: BtcDaiOrder)
        ensures
            r.position == Position::Buy,
            r.quantity == quantity,
            r.price == price,
            r.swap_protocol == swap_protocol,
    {
        BtcDaiOrder { id: random_order_id(), position: Position::Buy, quantity, price, swap_protocol }
    }
}

/// Whether an order's expiries match the safe offsets the expiry rules
/// determine; only such orders are reported as executable.
pub open spec fn spec_has_executable_expiries(order: BtcDaiOrder) -> bool {
    match order.swap_protocol {
        SwapProtocol::HbitHerc20 { hbit_expiry_offset, herc20_expiry_offset } => hbit_expiry_offset
            == FIRST_FUNDED_EXPIRY_OFFSET_SECS && herc20_expiry_offset
            == SECOND_FUNDED_EXPIRY_OFFSET_SECS,
        SwapProtocol::Herc20Hbit { herc20_expiry_offset, hbit_expiry_offset } =>
            herc20_expiry_offset == FIRST_FUNDED_EXPIRY_OFFSET_SECS && hbit_expiry_offset
            == SECOND_FUNDED_EXPIRY_OFFSET_SECS,
    }
}

/// Retains exactly the orders whose expiries match the safe offsets.
pub fn has_executable_expiries(order: &BtcDaiOrder) -> (r: bool)
    ensures
        r == spec_has_executable_expiries(*order),
{
    match order.swap_protocol {
        SwapProtocol::HbitHerc20 { hbit_expiry_offset, herc20_expiry_offset } => {
            let offsets = expiry_offsets_hbit_herc20();
            hbit_expiry_offset == offsets.0 && herc20_expiry_offset == offsets.1
        },
        SwapProtocol::Herc20Hbit { herc20_expiry_offset, hbit_expiry_offset } => {
            let offsets = expiry_offsets_herc20_hbit();
            herc20_expiry_offset == offsets.0 && hbit_expiry_offset == offsets.1
        },
    }
}

} // verus!
