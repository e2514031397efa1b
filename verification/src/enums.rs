//! Closed enumerations shared by orders, events and instruments.

use vstd::prelude::*;

verus! {

/// Side of an order: whether it buys or sells the instrument.
#[derive(Clone, Copy, Debug, PartialEq, Eq, Structural)]
pub enum OrderSide {
    Buy,
    Sell,
}

/// Concrete kind of an order variant.
#[derive(Clone, Copy, Debug, PartialEq, Eq, Structural)]
pub enum OrderType {
    Market,
    Limit,
    StopMarket,
    StopLimit,
    MarketToLimit,
    MarketIfTouched,
    LimitIfTouched,
    TrailingStopMarket,
    TrailingStopLimit,
}

/// Lifecycle status of an order. `Rejected`, `Canceled`, `Expired` and
/// `Filled` are terminal: no further event moves the order out of them.
#[derive(Clone, Copy, Debug, PartialEq, Eq, Structural)]
pub enum OrderStatus {
    Initialized,
    Submitted,
    Accepted,
    Triggered,
    PartiallyFilled,
    Filled,
    Canceled,
    Expired,
    Rejected,
}

/// How long an order remains in force at the venue.
#[derive(Clone, Copy, Debug, PartialEq, Eq, Structural)]
pub enum TimeInForce {
    Gtc,
    Ioc,
    Fok,
    Gtd,
    Day,
    AtTheOpen,
    AtTheClose,
}

/// Price source that a stop or emulated order watches for its trigger.
#[derive(Clone, Copy, Debug, PartialEq, Eq, Structural)]
pub enum TriggerType {
    Default,
    BidAsk,
    LastTrade,
    DoubleLast,
    DoubleBidAsk,
    LastOrBidAsk,
    MidPoint,
    MarkPrice,
    IndexPrice,
}

/// Relationship between linked orders (one-cancels-other, one-triggers-other,
/// one-updates-other).
#[derive(Clone, Copy, Debug, PartialEq, Eq, Structural)]
pub enum ContingencyType {
    Oco,
    Oto,
    Ouo,
}

/// Whether a fill added or removed liquidity at the venue.
#[derive(Clone, Copy, Debug, PartialEq, Eq, Structural)]
pub enum LiquiditySide {
    Maker,
    Taker,
}

/// Broad asset class of an instrument.
#[derive(Clone, Copy, Debug, PartialEq, Eq, Structural)]
pub enum AssetClass {
    Fx,
    Equity,
    Commodity,
    Metal,
    Energy,
    Bond,
    Index,
    Cryptocurrency,
}

/// Contract form of an instrument.
#[derive(Clone, Copy, Debug, PartialEq, Eq, Structural)]
pub enum AssetType {
    Spot,
    Swap,
    Future,
    Forward,
    Cfd,
    Option,
    Warrant,
}

/// Whether an options contract is a call or a put.
#[derive(Clone, Copy, Debug, PartialEq, Eq, Structural)]
pub enum OptionKind {
    Call,
    Put,
}

/// True exactly for the order types that watch a trigger price and therefore
/// may receive a trigger event.
pub open spec fn is_stop_type(t: OrderType) -> bool {
    ||| t == OrderType::StopMarket
    ||| t == OrderType::StopLimit
    ||| t == OrderType::MarketIfTouched
    ||| t == OrderType::LimitIfTouched
    ||| t == OrderType::TrailingStopMarket
    ||| t == OrderType::TrailingStopLimit
}

/// Executable test for [`is_stop_type`].
pub fn order_type_is_stop(t: OrderType) -> (r: bool)
    ensures
        r == is_stop_type(t),
{
    match t {
        OrderType::StopMarket => true,
        OrderType::StopLimit => true,
        OrderType::MarketIfTouched => true,
        OrderType::LimitIfTouched => true,
        OrderType::TrailingStopMarket => true,
        OrderType::TrailingStopLimit => true,
        _ => false,
    }
}

} // verus!
