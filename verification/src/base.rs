//! The uniform capability interface of every order variant.
//!
//! Consumers depend on this trait alone, never on a concrete variant.
//! Each method's contract ties its result to the variant's shared state
//! model, so that any two variants built from equivalent initialization
//! data agree on every shared accessor. The pricing accessors are the one
//! variant-dependent group: each variant fixes them through its
//! `price_spec`, `trigger_price_spec` and `trigger_type_spec` functions
//! (a market order reports all three absent; a stop order reports a
//! trigger and no limit price).

use vstd::prelude::*;

use crate::enums::{
    ContingencyType, LiquiditySide, OrderSide, OrderStatus, OrderType, TimeInForce, TriggerType,
};
use crate::events::{OrderEvent, UnixNanos};
use crate::identifiers::{
    AccountId, ClientOrderId, ExecAlgorithmId, InstrumentId, OrderListId, PositionId, StrategyId,
    TradeId, TraderId, VenueOrderId, UUID4,
};
use crate::order_core::{opt_chars, opt_id_seq, opt_param_seq, opt_str_chars, CoreModel};
use crate::types::{Price, Quantity};

verus! {

/// The capability interface shared by all order variants.
pub trait Order: Sized {
    /// The model of the shared order state this variant owns.
    spec fn core_model(&self) -> CoreModel;

    /// The limit price the variant reports, absent unless the variant
    /// carries that concept.
    spec fn price_spec(&self) -> Option<Price>;

    /// The trigger price the variant reports, absent unless the variant
    /// carries that concept.
    spec fn trigger_price_spec(&self) -> Option<Price>;

    /// The trigger type the variant reports, absent unless the variant
    /// carries that concept.
    spec fn trigger_type_spec(&self) -> Option<TriggerType>;

    /// Lifecycle status.
    fn status(&self) -> (r: OrderStatus)
        ensures
            r == self.core_model().status,
    ;

    /// Trader that owns the order.
    fn trader_id(&self) -> (r: TraderId)
        ensures
            r@ == self.core_model().trader_id,
    ;

    /// Strategy that originated the order.
    fn strategy_id(&self) -> (r: StrategyId)
        ensures
            r@ == self.core_model().strategy_id,
    ;

    /// Instrument the order trades.
    fn instrument_id(&self) -> (r: InstrumentId)
        ensures
            r@ == self.core_model().instrument_id,
    ;

    /// Client-assigned identity of the order.
    fn client_order_id(&self) -> (r: ClientOrderId)
        ensures
            r@ == self.core_model().client_order_id,
    ;

    /// Venue-assigned identifier, once accepted.
    fn venue_order_id(&self) -> (r: Option<VenueOrderId>)
        ensures
            opt_chars(r) == self.core_model().venue_order_id,
    ;

    /// Position the order is booked against, once known.
    fn position_id(&self) -> (r: Option<PositionId>)
        ensures
            opt_chars(r) == self.core_model().position_id,
    ;

    /// Account the order is booked under, once accepted.
    fn account_id(&self) -> (r: Option<AccountId>)
        ensures
            opt_chars(r) == self.core_model().account_id,
    ;

    /// Identifier of the most recent fill.
    fn last_trade_id(&self) -> (r: Option<TradeId>)
        ensures
            opt_chars(r) == self.core_model().last_trade_id,
    ;

    /// Whether the order buys or sells.
    fn side(&self) -> (r: OrderSide)
        ensures
            r == self.core_model().side,
    ;

    /// Which variant the order belongs to.
    fn order_type(&self) -> (r: OrderType)
        ensures
            r == self.core_model().order_type,
    ;

    /// Initial (total) quantity.
    fn quantity(&self) -> (r: Quantity)
        ensures
            r == self.core_model().quantity,
    ;

    /// How long the order remains in force.
    fn time_in_force(&self) -> (r: TimeInForce)
        ensures
            r == self.core_model().time_in_force,
    ;

    /// Limit price, absent unless the variant carries one.
    fn price(&self) -> (r: Option<Price>)
        ensures
            r == self.price_spec(),
    ;

    /// Trigger price, absent unless the variant carries one.
    fn trigger_price(&self) -> (r: Option<Price>)
        ensures
            r == self.trigger_price_spec(),
    ;

    /// Trigger type, absent unless the variant carries one.
    fn trigger_type(&self) -> (r: Option<TriggerType>)
        ensures
            r == self.trigger_type_spec(),
    ;

    /// Liquidity side of the most recent fill.
    fn liquidity_side(&self) -> (r: Option<LiquiditySide>)
        ensures
            r == self.core_model().liquidity_side,
    ;

    /// Whether the order must not take liquidity.
    fn is_post_only(&self) -> (r: bool)
        ensures
            r == self.core_model().is_post_only,
    ;

    /// Whether the order may only reduce a position.
    fn is_reduce_only(&self) -> (r: bool)
        ensures
            r == self.core_model().is_reduce_only,
    ;

    /// Whether the quantity is quote-denominated.
    fn is_quote_quantity(&self) -> (r: bool)
        ensures
            r == self.core_model().is_quote_quantity,
    ;

    /// Trigger under which the platform emulates the order.
    fn emulation_trigger(&self) -> (r: Option<TriggerType>)
        ensures
            r == self.core_model().emulation_trigger,
    ;

    /// Relationship with linked orders.
    fn contingency_type(&self) -> (r: Option<ContingencyType>)
        ensures
            r == self.core_model().contingency_type,
    ;

    /// List the order was submitted in.
    fn order_list_id(&self) -> (r: Option<OrderListId>)
        ensures
            opt_chars(r) == self.core_model().order_list_id,
    ;

    /// Client order ids linked through the contingency.
    fn linked_order_ids(&self) -> (r: Option<Vec<ClientOrderId>>)
        ensures
            opt_id_seq(r) == self.core_model().linked_order_ids,
    ;

    /// Parent order, for child orders.
    fn parent_order_id(&self) -> (r: Option<ClientOrderId>)
        ensures
            opt_chars(r) == self.core_model().parent_order_id,
    ;

    /// Execution algorithm in charge of the order.
    fn exec_algorithm_id(&self) -> (r: Option<ExecAlgorithmId>)
        ensures
            opt_chars(r) == self.core_model().exec_algorithm_id,
    ;

    /// String-keyed execution-algorithm parameters.
    fn exec_algorithm_params(&self) -> (r: Option<Vec<(String, String)>>)
        ensures
            opt_param_seq(r) == self.core_model().exec_algorithm_params,
    ;

    /// Primary order of the execution-algorithm spawn sequence.
    fn exec_spawn_id(&self) -> (r: Option<ClientOrderId>)
        ensures
            opt_chars(r) == self.core_model().exec_spawn_id,
    ;

    /// Free-form tag string.
    fn tags(&self) -> (r: Option<String>)
        ensures
            opt_str_chars(r) == self.core_model().tags,
    ;

    /// Quantity filled so far.
    fn filled_qty(&self) -> (r: Quantity)
        ensures
            r == self.core_model().filled_qty,
    ;

    /// Quantity still working.
    fn leaves_qty(&self) -> (r: Quantity)
        ensures
            r == self.core_model().leaves_qty,
    ;

    /// Volume-weighted integer average price of the fills so far.
    fn avg_px(&self) -> (r: Option<Price>)
        ensures
            r == self.core_model().avg_px,
    ;

    /// Slippage against the intended price.
    fn slippage(&self) -> (r: Option<Price>)
        ensures
            r == self.core_model().slippage,
    ;

    /// Identity of the initialization event.
    fn init_id(&self) -> (r: UUID4)
        ensures
            r == self.core_model().init_id,
    ;

    /// Timestamp of initialization.
    fn ts_init(&self) -> (r: UnixNanos)
        ensures
            r == self.core_model().ts_init,
    ;

    /// Timestamp of the most recent applied event.
    fn ts_last(&self) -> (r: UnixNanos)
        ensures
            r == self.core_model().ts_last,
    ;

    /// Read-only view of the applied events, in application order.
    fn events(&self) -> (r: &Vec<OrderEvent>)
        ensures
            r@ == self.core_model().events,
    ;

    /// Read-only view of the venue order ids seen, in order.
    fn venue_order_ids(&self) -> (r: &Vec<VenueOrderId>)
        ensures
            r@.map_values(|id: VenueOrderId| id@) == self.core_model().venue_order_ids,
    ;

    /// Read-only view of the trade ids seen, in order.
    fn trade_ids(&self) -> (r: &Vec<TradeId>)
        ensures
            r@.map_values(|id: TradeId| id@) == self.core_model().trade_ids,
    ;
}

} // verus!
