//! The values the status layer reports to clients, and the exact text
//! they are written as. The engine renders these itself so that the
//! wire format is pinned down: amounts as decimal strings tagged by
//! currency, identifiers in hyphenated form, orders with their state
//! and a cancel action while they are open.

use vstd::prelude::*;
use vstd::string::StringExecFns;

use crate::actions::Action;
use crate::asset;
use crate::encoding::dec_of;
use crate::encoding::{to_dec_u128, to_dec_u64};
use crate::types::{swap_id_text, EthHash, SwapId, Txid};

verus! {

/// The URL path of one swap's resource.
pub fn swap_path(id: SwapId) -> (r: String)
    ensures
        r@ == spec_swap_path(id.value as nat),
{
    let mut r = String::from_str("/swaps/rfc003/");
    let text = id.to_text();
    r.append(text.as_str());
    proof {
        assert(r@ =~= spec_swap_path(id.value as nat));
    }
    r
}

/// The URL path of one swap's resource: the swaps collection, the
/// protocol family, and the swap's identifier.
pub open spec fn spec_swap_path(id: nat) -> Seq<char> {
    "/swaps/rfc003/"@ + swap_id_text(id)
}

/// An asset amount as reported to clients: the integer count of the
/// asset's smallest unit, tagged with the currency and its decimals.
#[derive(Clone, Copy, Debug, PartialEq, Eq, Structural)]
pub enum Amount {
    Bitcoin { value: asset::Bitcoin, decimals: u8 },
    Dai { value: asset::Erc20Quantity, decimals: u8 },
}

impl Amount {
    /// An amount of bitcoin; satoshi have eight decimals.
    pub fn btc(value: asset::Bitcoin) -> (r: Amount)
        ensures
            r == (Amount::Bitcoin { value, decimals: 8u8 }),
    {
        Amount::Bitcoin { value, decimals: 8 }
    }

    /// An amount of dai; wei have eighteen decimals.
    pub fn dai(value: asset::Erc20Quantity) -> (r: Amount)
        ensures
            r == (Amount::Dai { value, decimals: 18u8 }),
    {
        Amount::Dai { value, decimals: 18 }
    }

    /// The amount as one JSON object, in the exact compact text the
    /// wire carries.
    pub fn to_json(&self) -> (r: String)
        ensures
            r@ == spec_amount_json(*self),
    {
        match self {
            Amount::Bitcoin { value, decimals } => {
                let mut r = String::from_str("{\"currency\":\"BTC\",\"value\":\"");
                r.append(to_dec_u64(value.sats).as_str());
                r.append("\",\"decimals\":");
                r.append(to_dec_u64(*decimals as u64).as_str());
                r.append("}");
                proof {
                    assert(r@ =~= spec_amount_json(*self));
                }
                r
            },
            Amount::Dai { value, decimals } => {
                let mut r = String::from_str("{\"currency\":\"DAI\",\"value\":\"");
                r.append(to_dec_u128(value.wei).as_str());
                r.append("\",\"decimals\":");
                r.append(to_dec_u64(*decimals as u64).as_str());
                r.append("}");
                proof {
                    assert(r@ =~= spec_amount_json(*self));
                }
                r
            },
        }
    }

    /// The amount as a JSON object nested one level deep in a
    /// two-space-indented document.
    pub fn to_json_nested(&self) -> (r: String)
        ensures
            r@ == spec_amount_json_nested(*self),
    {
        match self {
            Amount::Bitcoin { value, decimals } => {
                let mut r = String::from_str("{\n    \"currency\": \"BTC\",\n    \"value\": \"");
                r.append(to_dec_u64(value.sats).as_str());
                r.append("\",\n    \"decimals\": ");
                r.append(to_dec_u64(*decimals as u64).as_str());
                r.append("\n  }");
                proof {
                    assert(r@ =~= spec_amount_json_nested(*self));
                }
                r
            },
            Amount::Dai { value, decimals } => {
                let mut r = String::from_str("{\n    \"currency\": \"DAI\",\n    \"value\": \"");
                r.append(to_dec_u128(value.wei).as_str());
                r.append("\",\n    \"decimals\": ");
                r.append(to_dec_u64(*decimals as u64).as_str());
                r.append("\n  }");
                proof {
                    assert(r@ =~= spec_amount_json_nested(*self));
                }
                r
            },
        }
    }
}

/// The compact JSON text of an amount.
pub open spec fn spec_amount_json(a: Amount) -> Seq<char> {
    match a {
        Amount::Bitcoin { value, decimals } => "{\"currency\":\"BTC\",\"value\":\""@ + dec_of(
            value.sats as nat,
        ) + "\",\"decimals\":"@ + dec_of(decimals as nat) + "}"@,
        Amount::Dai { value, decimals } => "{\"currency\":\"DAI\",\"value\":\""@ + dec_of(
            value.wei as nat,
        ) + "\",\"decimals\":"@ + dec_of(decimals as nat) + "}"@,
    }
}

/// The JSON text of an amount nested one level deep in a pretty
/// document.
pub open spec fn spec_amount_json_nested(a: Amount) -> Seq<char> {
    match a {
        Amount::Bitcoin { value, decimals } => "{\n    \"currency\": \"BTC\",\n    \"value\": \""@
            + dec_of(value.sats as nat) + "\",\n    \"decimals\": "@ + dec_of(decimals as nat)
            + "\n  }"@,
        Amount::Dai { value, decimals } => "{\n    \"currency\": \"DAI\",\n    \"value\": \""@
            + dec_of(value.wei as nat) + "\",\n    \"decimals\": "@ + dec_of(decimals as nat)
            + "\n  }"@,
    }
}

/// Which protocol one leg of a swap runs, with the asset it carries.
#[derive(Clone, Copy, Debug, PartialEq, Eq, Structural)]
pub enum Protocol {
    Hbit { asset: Amount },
    Herc20 { asset: Amount },
}

impl Protocol {
    /// The bitcoin HTLC protocol, carrying bitcoin.
    pub fn hbit(btc: asset::Bitcoin) -> (r: Protocol)
        ensures
            r == (Protocol::Hbit { asset: Amount::Bitcoin { value: btc, decimals: 8u8 } }),
    {
        Protocol::Hbit { asset: Amount::btc(btc) }
    }

    /// The ERC20 HTLC protocol, carrying dai.
    pub fn herc20_dai(dai: asset::Erc20Quantity) -> (r: Protocol)
        ensures
            r == (Protocol::Herc20 { asset: Amount::Dai { value: dai, decimals: 18u8 } }),
    {
        Protocol::Herc20 { asset: Amount::dai(dai) }
    }

    /// The protocol as a two-space-indented JSON document.
    pub fn to_json_pretty(&self) -> (r: String)
        ensures
            r@ == spec_protocol_json_pretty(*self),
    {
        match self {
            Protocol::Hbit { asset } => {
                let mut r = String::from_str("{\n  \"protocol\": \"hbit\",\n  \"asset\": ");
                r.append(asset.to_json_nested().as_str());
                r.append("\n}");
                proof {
                    assert(r@ =~= spec_protocol_json_pretty(*self));
                }
                r
            },
            Protocol::Herc20 { asset } => {
                let mut r = String::from_str("{\n  \"protocol\": \"herc20\",\n  \"asset\": ");
                r.append(asset.to_json_nested().as_str());
                r.append("\n}");
                proof {
                    assert(r@ =~= spec_protocol_json_pretty(*self));
                }
                r
            },
        }
    }
}

/// The pretty JSON text of a protocol report.
pub open spec fn spec_protocol_json_pretty(p: Protocol) -> Seq<char> {
    match p {
        Protocol::Hbit { asset } => "{\n  \"protocol\": \"hbit\",\n  \"asset\": "@
            + spec_amount_json_nested(asset) + "\n}"@,
        Protocol::Herc20 { asset } => "{\n  \"protocol\": \"herc20\",\n  \"asset\": "@
            + spec_amount_json_nested(asset) + "\n}"@,
    }
}

/// The name of an action, as clients address it.
#[derive(Clone, Copy, Debug, PartialEq, Eq, Structural, Hash)]
pub enum ActionName {
    Deploy,
    Fund,
    Redeem,
    Refund,
    Accept,
    Decline,
}

/// The name an action is addressed by.
pub open spec fn spec_action_name(action: Action) -> ActionName {
    match action {
        Action::Accept => ActionName::Accept,
        Action::Decline => ActionName::Decline,
        Action::Herc20Deploy(..) => ActionName::Deploy,
        Action::Herc20Fund(..) => ActionName::Fund,
        Action::Herc20Redeem(..) => ActionName::Redeem,
        Action::Herc20Refund(..) => ActionName::Refund,
        Action::HbitFund(..) => ActionName::Fund,
        Action::HbitRedeem(..) => ActionName::Redeem,
        Action::HbitRefund(..) => ActionName::Refund,
    }
}

impl From<Action> for ActionName {
    fn from(action: Action) -> (r: ActionName) {
        match action {
            Action::Accept => ActionName::Accept,
            Action::Decline => ActionName::Decline,
            Action::Herc20Deploy(..) => ActionName::Deploy,
            Action::Herc20Fund(..) => ActionName::Fund,
            Action::Herc20Redeem(..) => ActionName::Redeem,
            Action::Herc20Refund(..) => ActionName::Refund,
            Action::HbitFund(..) => ActionName::Fund,
            Action::HbitRedeem(..) => ActionName::Redeem,
            Action::HbitRefund(..) => ActionName::Refund,
        }
    }
}

impl vstd::std_specs::convert::FromSpecImpl<Action> for ActionName {
    open spec fn obeys_from_spec() -> bool {
        true
    }

    open spec fn from_spec(action: Action) -> ActionName {
        spec_action_name(action)
    }
}

/// An event of a swap as reported to clients: which leg, which kind,
/// and the transaction that carried it.
#[derive(Clone, Copy, Debug)]
pub enum SwapEvent {
    HbitFunded { tx: Txid },
    HbitRedeemed { tx: Txid },
    Herc20Deployed { tx: EthHash },
    Herc20Funded { tx: EthHash },
    Herc20Redeemed { tx: EthHash },
}

/// Asked for an action the swap does not offer in its current state.
#[derive(Clone, Copy, Debug, PartialEq, Eq, Structural)]
pub struct ActionNotFound;

impl ActionNotFound {
    /// The message clients see.
    pub fn message(&self) -> (r: &'static str)
        ensures
            r@ == "action not found"@,
    {
        "action not found"
    }
}

/// Identifier of one order, opaque and never reused.
#[derive(Clone, Copy, Debug, PartialEq, Eq, Structural, Hash)]
pub struct OrderId {
    pub value: u128,
}

impl OrderId {
    pub fn new(value: u128) -> (r: OrderId)
        ensures
            r.value == value,
    {
        OrderId { value }
    }

    /// The canonical hyphenated text form of the identifier.
    pub fn to_text(&self) -> (r: String)
        ensures
            r@ == swap_id_text(self.value as nat),
    {
        SwapId::new(self.value).to_text()
    }
}

/// Which side of the order book an order stands on.
#[derive(Clone, Copy, Debug, PartialEq, Eq, Structural)]
pub enum Position {
    Buy,
    Sell,
}

/// The lowercase text of a position.
pub open spec fn spec_position_text(p: Position) -> Seq<char> {
    match p {
        Position::Buy => "buy"@,
        Position::Sell => "sell"@,
    }
}

impl Position {
    pub fn to_text(&self) -> (r: &'static str)
        ensures
            r@ == spec_position_text(*self),
    {
        match self {
            Position::Buy => "buy",
            Position::Sell => "sell",
        }
    }
}

/// How much of an order sits in each settlement state, in satoshi.
#[derive(Clone, Copy, Debug, PartialEq, Eq, Structural)]
pub struct State {
    pub open: asset::Bitcoin,
    pub closed: asset::Bitcoin,
    pub settling: asset::Bitcoin,
    pub failed: asset::Bitcoin,
    pub cancelled: asset::Bitcoin,
}

impl State {
    /// Whether any part of the order is still open to take.
    pub fn is_open(&self) -> (r: bool)
        ensures
            r <==> self.open.sats != 0,
    {
        self.open.sats != 0
    }
}

/// The properties of one order as reported to clients.
#[derive(Clone, Copy, Debug)]
pub struct OrderProperties {
    pub id: OrderId,
    pub position: Position,
    pub price: Amount,
    pub quantity: Amount,
    pub state: State,
}

impl OrderProperties {
    /// The order as a two-space-indented JSON document, in the exact
    /// text the wire carries.
    pub fn to_json_pretty(&self) -> (r: String)
        ensures
            r@ == spec_order_json_pretty(*self),
    {
        let mut r = String::from_str("{\n  \"id\": \"");
        r.append(self.id.to_text().as_str());
        r.append("\",\n  \"position\": \"");
        r.append(self.position.to_text());
        r.append("\",\n  \"price\": ");
        r.append(self.price.to_json_nested().as_str());
        r.append(",\n  \"quantity\": ");
        r.append(self.quantity.to_json_nested().as_str());
        r.append(",\n  \"state\": {\n    \"open\": \"");
        r.append(to_dec_u64(self.state.open.sats).as_str());
        r.append("\",\n    \"closed\": \"");
        r.append(to_dec_u64(self.state.closed.sats).as_str());
        r.append("\",\n    \"settling\": \"");
        r.append(to_dec_u64(self.state.settling.sats).as_str());
        r.append("\",\n    \"failed\": \"");
        r.append(to_dec_u64(self.state.failed.sats).as_str());
        r.append("\",\n    \"cancelled\": \"");
        r.append(to_dec_u64(self.state.cancelled.sats).as_str());
        r.append("\"\n  }\n}");
        proof {
            assert(r@ =~= spec_order_json_pretty(*self));
        }
        r
    }
}

/// The pretty JSON text of an order report.
pub open spec fn spec_order_json_pretty(o: OrderProperties) -> Seq<char> {
    "{\n  \"id\": \""@ + swap_id_text(o.id.value as nat) + "\",\n  \"position\": \""@
        + spec_position_text(o.position) + "\",\n  \"price\": "@ + spec_amount_json_nested(o.price)
        + ",\n  \"quantity\": "@ + spec_amount_json_nested(o.quantity)
        + ",\n  \"state\": {\n    \"open\": \""@ + dec_of(o.state.open.sats as nat)
        + "\",\n    \"closed\": \""@ + dec_of(o.state.closed.sats as nat)
        + "\",\n    \"settling\": \""@ + dec_of(o.state.settling.sats as nat)
        + "\",\n    \"failed\": \""@ + dec_of(o.state.failed.sats as nat)
        + "\",\n    \"cancelled\": \""@ + dec_of(o.state.cancelled.sats as nat) + "\"\n  }\n}"@
}

/// The HTTP method a reported action is performed with.
#[derive(Clone, Copy, Debug, PartialEq, Eq, Structural)]
pub enum HttpMethod {
    Delete,
}

/// The cancel action attached to an open order.
#[derive(Clone, Debug)]
pub struct CancelAction {
    pub name: String,
    pub method: HttpMethod,
    pub href: String,
    pub media_type: String,
}

/// The cancel action of an order: offered exactly while some of the
/// order is still open, addressed at the order's own resource.
pub fn cancel_action(order: &OrderProperties) -> (r: Option<CancelAction>)
    ensures
        r is Some <==> order.state.open.sats != 0,
        r matches Some(a) ==> a.name@ == "cancel"@ && a.method == HttpMethod::Delete && a.href@
            == "/orders/"@ + swap_id_text(order.id.value as nat) && a.media_type@
            == "application/json"@,
{
    if order.state.is_open() {
        let mut href = String::from_str("/orders/");
        href.append(order.id.to_text().as_str());
        Some(
            CancelAction {
                name: String::from_str("cancel"),
                method: HttpMethod::Delete,
                href,
                media_type: String::from_str("application/json"),
            },
        )
    } else {
        None
    }
}

} // verus!
