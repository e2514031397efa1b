//! Lifecycle events.
//!
//! One immutable record type per lifecycle transition, collected in the
//! [`OrderEvent`] tagged union. The initialization record alone carries
//! every optional field any order variant might need, so that any concrete
//! variant can be built from it and any variant can serialize itself back
//! into one for replay. The other records carry only the fields their
//! transition needs.

use vstd::prelude::*;

use crate::enums::{
    ContingencyType, LiquiditySide, OrderSide, OrderType, TimeInForce, TriggerType,
};
use crate::identifiers::{
    AccountId, ClientOrderId, ExecAlgorithmId, InstrumentId, OrderListId, PositionId, StrategyId,
    TradeId, TraderId, VenueOrderId, UUID4,
};
use crate::types::{Price, Quantity};

verus! {

/// Timestamp in nanoseconds since the Unix epoch.
pub type UnixNanos = u64;

/// The record that creates an order. Its field set is the superset any
/// variant needs; a variant built from it unwraps the optional fields it
/// requires and ignores the rest.
pub struct OrderInitialized {
    /// Trader that owns the order.
    pub trader_id: TraderId,
    /// Strategy that originated the order.
    pub strategy_id: StrategyId,
    /// Instrument the order trades.
    pub instrument_id: InstrumentId,
    /// Client-assigned identity of the order.
    pub client_order_id: ClientOrderId,
    /// Whether the order buys or sells.
    pub order_side: OrderSide,
    /// Which variant the order belongs to.
    pub order_type: OrderType,
    /// Initial (total) quantity.
    pub quantity: Quantity,
    /// Limit price, for variants that carry one.
    pub price: Option<Price>,
    /// Trigger price, for stop variants.
    pub trigger_price: Option<Price>,
    /// Trigger price source, for stop variants.
    pub trigger_type: Option<TriggerType>,
    /// How long the order remains in force.
    pub time_in_force: TimeInForce,
    /// Expiry timestamp, for orders in force until a date.
    pub expire_time: Option<UnixNanos>,
    /// Whether the order must not take liquidity.
    pub post_only: bool,
    /// Whether the order may only reduce a position.
    pub reduce_only: bool,
    /// Whether the quantity is denominated in the quote currency.
    pub quote_quantity: bool,
    /// Quantity displayed to the venue, for iceberg orders.
    pub display_qty: Option<Quantity>,
    /// Offset of the limit price, for trailing variants.
    pub limit_offset: Option<Price>,
    /// Offset of the trigger price, for trailing variants.
    pub trailing_offset: Option<Price>,
    /// Price source the trailing offsets follow.
    pub trailing_offset_type: Option<TriggerType>,
    /// Trigger under which the platform emulates the order.
    pub emulation_trigger: Option<TriggerType>,
    /// Relationship with linked orders, if any.
    pub contingency_type: Option<ContingencyType>,
    /// List the order was submitted in, if any.
    pub order_list_id: Option<OrderListId>,
    /// Client order ids linked through the contingency.
    pub linked_order_ids: Option<Vec<ClientOrderId>>,
    /// Parent order, for child orders of an execution algorithm.
    pub parent_order_id: Option<ClientOrderId>,
    /// Execution algorithm in charge of the order, if any.
    pub exec_algorithm_id: Option<ExecAlgorithmId>,
    /// String-keyed parameters of the execution algorithm.
    pub exec_algorithm_params: Option<Vec<(String, String)>>,
    /// Primary order of the execution-algorithm spawn sequence.
    pub exec_spawn_id: Option<ClientOrderId>,
    /// Free-form tag string.
    pub tags: Option<String>,
    /// Identity of this event.
    pub event_id: UUID4,
    /// When the event happened.
    pub ts_event: UnixNanos,
    /// When the event record was created.
    pub ts_init: UnixNanos,
    /// True only for events synthesized from external-venue
    /// reconciliation rather than live order construction.
    pub reconciliation: bool,
}


/// The mathematical model of an [`OrderInitialized`] record: identifier
/// fields become the character sequences they stand for, vectors become
/// sequences.
#[verifier::ext_equal]
pub ghost struct InitModel {
    /// Trader that owns the order.
    pub trader_id: Seq<char>,
    /// Strategy that originated the order.
    pub strategy_id: Seq<char>,
    /// Instrument the order trades, as (symbol, venue).
    pub instrument_id: (Seq<char>, Seq<char>),
    /// Client-assigned identity of the order.
    pub client_order_id: Seq<char>,
    /// Whether the order buys or sells.
    pub order_side: OrderSide,
    /// Which variant the order belongs to.
    pub order_type: OrderType,
    /// Initial (total) quantity.
    pub quantity: Quantity,
    /// Limit price, if the variant carries one.
    pub price: Option<Price>,
    /// Trigger price, for stop variants.
    pub trigger_price: Option<Price>,
    /// Trigger price source, for stop variants.
    pub trigger_type: Option<TriggerType>,
    /// How long the order remains in force.
    pub time_in_force: TimeInForce,
    /// Expiry timestamp.
    pub expire_time: Option<UnixNanos>,
    /// Whether the order must not take liquidity.
    pub post_only: bool,
    /// Whether the order may only reduce a position.
    pub reduce_only: bool,
    /// Whether the quantity is quote-denominated.
    pub quote_quantity: bool,
    /// Displayed quantity.
    pub display_qty: Option<Quantity>,
    /// Offset of the limit price, for trailing variants.
    pub limit_offset: Option<Price>,
    /// Offset of the trigger price, for trailing variants.
    pub trailing_offset: Option<Price>,
    /// Price source the trailing offsets follow.
    pub trailing_offset_type: Option<TriggerType>,
    /// Trigger under which the platform emulates the order.
    pub emulation_trigger: Option<TriggerType>,
    /// Relationship with linked orders.
    pub contingency_type: Option<ContingencyType>,
    /// List the order was submitted in.
    pub order_list_id: Option<Seq<char>>,
    /// Client order ids linked through the contingency.
    pub linked_order_ids: Option<Seq<Seq<char>>>,
    /// Parent order, for child orders.
    pub parent_order_id: Option<Seq<char>>,
    /// Execution algorithm in charge of the order.
    pub exec_algorithm_id: Option<Seq<char>>,
    /// String-keyed execution-algorithm parameters.
    pub exec_algorithm_params: Option<Seq<(Seq<char>, Seq<char>)>>,
    /// Primary order of the execution-algorithm spawn sequence.
    pub exec_spawn_id: Option<Seq<char>>,
    /// Free-form tag string.
    pub tags: Option<Seq<char>>,
    /// Identity of this event.
    pub event_id: UUID4,
    /// When the event happened.
    pub ts_event: UnixNanos,
    /// When the event record was created.
    pub ts_init: UnixNanos,
    /// Reconciliation mark.
    pub reconciliation: bool,
}

impl View for OrderInitialized {
    type V = InitModel;

    open spec fn view(&self) -> InitModel {
        InitModel {
            trader_id: self.trader_id@,
            strategy_id: self.strategy_id@,
            instrument_id: self.instrument_id@,
            client_order_id: self.client_order_id@,
            order_side: self.order_side,
            order_type: self.order_type,
            quantity: self.quantity,
            price: self.price,
            trigger_price: self.trigger_price,
            trigger_type: self.trigger_type,
            time_in_force: self.time_in_force,
            expire_time: self.expire_time,
            post_only: self.post_only,
            reduce_only: self.reduce_only,
            quote_quantity: self.quote_quantity,
            display_qty: self.display_qty,
            limit_offset: self.limit_offset,
            trailing_offset: self.trailing_offset,
            trailing_offset_type: self.trailing_offset_type,
            emulation_trigger: self.emulation_trigger,
            contingency_type: self.contingency_type,
            order_list_id: match self.order_list_id {
                Some(id) => Some(id@),
                None => None,
            },
            linked_order_ids: match self.linked_order_ids {
                Some(v) => Some(v@.map_values(|id: ClientOrderId| id@)),
                None => None,
            },
            parent_order_id: match self.parent_order_id {
                Some(id) => Some(id@),
                None => None,
            },
            exec_algorithm_id: match self.exec_algorithm_id {
                Some(id) => Some(id@),
                None => None,
            },
            exec_algorithm_params: match self.exec_algorithm_params {
                Some(v) => Some(v@.map_values(|p: (String, String)| (p.0@, p.1@))),
                None => None,
            },
            exec_spawn_id: match self.exec_spawn_id {
                Some(id) => Some(id@),
                None => None,
            },
            tags: match self.tags {
                Some(s) => Some(s@),
                None => None,
            },
            event_id: self.event_id,
            ts_event: self.ts_event,
            ts_init: self.ts_init,
            reconciliation: self.reconciliation,
        }
    }
}

/// One lifecycle transition of an order.
pub enum OrderEvent {
    /// The order was created; see [`OrderInitialized`].
    Initialized(OrderInitialized),
    /// The order was sent to the venue.
    Submitted {
        /// Identity of this event.
        event_id: UUID4,
        /// When the event happened.
        ts_event: UnixNanos,
    },
    /// The venue acknowledged the order and assigned it an identifier.
    Accepted {
        /// Identity of this event.
        event_id: UUID4,
        /// Venue-assigned identifier of the order.
        venue_order_id: VenueOrderId,
        /// Account the order is booked under.
        account_id: AccountId,
        /// When the event happened.
        ts_event: UnixNanos,
    },
    /// The venue refused the order. Terminal.
    Rejected {
        /// Identity of this event.
        event_id: UUID4,
        /// When the event happened.
        ts_event: UnixNanos,
    },
    /// The stop condition fired; only stop-type orders receive this.
    Triggered {
        /// Identity of this event.
        event_id: UUID4,
        /// When the event happened.
        ts_event: UnixNanos,
    },
    /// Part or all of the order traded.
    Filled {
        /// Identity of this event.
        event_id: UUID4,
        /// Venue-assigned identifier of the trade.
        trade_id: TradeId,
        /// Position the fill was booked against, if assigned.
        position_id: Option<PositionId>,
        /// Quantity of this fill.
        last_qty: Quantity,
        /// Price of this fill.
        last_px: Price,
        /// Whether the fill added or removed liquidity.
        liquidity_side: LiquiditySide,
        /// When the event happened.
        ts_event: UnixNanos,
    },
    /// The order was canceled. Terminal.
    Canceled {
        /// Identity of this event.
        event_id: UUID4,
        /// When the event happened.
        ts_event: UnixNanos,
    },
    /// The order lapsed at the venue. Terminal.
    Expired {
        /// Identity of this event.
        event_id: UUID4,
        /// When the event happened.
        ts_event: UnixNanos,
    },
}

impl OrderEvent {
    /// When the event happened.
    pub open spec fn ts_event_spec(&self) -> UnixNanos {
        match *self {
            OrderEvent::Initialized(ref e) => e.ts_event,
            OrderEvent::Submitted { ts_event, .. } => ts_event,
            OrderEvent::Accepted { ts_event, .. } => ts_event,
            OrderEvent::Rejected { ts_event, .. } => ts_event,
            OrderEvent::Triggered { ts_event, .. } => ts_event,
            OrderEvent::Filled { ts_event, .. } => ts_event,
            OrderEvent::Canceled { ts_event, .. } => ts_event,
            OrderEvent::Expired { ts_event, .. } => ts_event,
        }
    }

    /// Executable twin of [`Self::ts_event_spec`].
    pub fn ts_event(&self) -> (r: UnixNanos)
        ensures
            r == self.ts_event_spec(),
    {
        match self {
            OrderEvent::Initialized(e) => e.ts_event,
            OrderEvent::Submitted { ts_event, .. } => *ts_event,
            OrderEvent::Accepted { ts_event, .. } => *ts_event,
            OrderEvent::Rejected { ts_event, .. } => *ts_event,
            OrderEvent::Triggered { ts_event, .. } => *ts_event,
            OrderEvent::Filled { ts_event, .. } => *ts_event,
            OrderEvent::Canceled { ts_event, .. } => *ts_event,
            OrderEvent::Expired { ts_event, .. } => *ts_event,
        }
    }
}

} // verus!
