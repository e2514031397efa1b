//! The shared order state container.
//!
//! [`OrderCore`] is the single source of truth for the fields common to
//! every order variant. It is built once from initialization data and
//! thereafter mutated only by applying further lifecycle events. Its
//! specification-level twin [`CoreModel`] carries the same state over
//! mathematical types; every contract in this crate speaks of an order
//! through that model.
//!
//! The invariant [`CoreModel::wf`] pins the fill bookkeeping: the filled
//! and leaves quantities always sum to the initial quantity, the
//! last-update timestamp never precedes the initialization timestamp, and
//! the average fill price equals the volume-weighted integer average of the
//! fills applied so far. An event that would break the invariant or move
//! the status backward is rejected and leaves the order unchanged.

use vstd::prelude::*;

use crate::enums::{
    is_stop_type, order_type_is_stop, ContingencyType, LiquiditySide, OrderSide, OrderStatus,
    OrderType, TimeInForce, TriggerType,
};
use crate::errors::{OrderError, ValidationError};
use crate::events::{OrderEvent, UnixNanos};
use crate::identifiers::{
    AccountId, ClientOrderId, ExecAlgorithmId, InstrumentId, OrderListId, PositionId, StrategyId,
    TradeId, TraderId, VenueOrderId, UUID4,
};
use crate::types::{Price, Quantity};

verus! {

/// The state common to every order variant.
pub struct OrderCore {
    /// Trader that owns the order. Immutable.
    pub trader_id: TraderId,
    /// Strategy that originated the order. Immutable.
    pub strategy_id: StrategyId,
    /// Instrument the order trades. Immutable.
    pub instrument_id: InstrumentId,
    /// Client-assigned identity of the order. Immutable.
    pub client_order_id: ClientOrderId,
    /// Whether the order buys or sells. Immutable.
    pub side: OrderSide,
    /// Which variant the order belongs to. Immutable.
    pub order_type: OrderType,
    /// Initial (total) quantity. Immutable.
    pub quantity: Quantity,
    /// How long the order remains in force. Immutable.
    pub time_in_force: TimeInForce,
    /// Lifecycle status.
    pub status: OrderStatus,
    /// Venue-assigned identifier, once accepted.
    pub venue_order_id: Option<VenueOrderId>,
    /// Position the order is booked against, once known.
    pub position_id: Option<PositionId>,
    /// Account the order is booked under, once accepted.
    pub account_id: Option<AccountId>,
    /// Identifier of the most recent fill.
    pub last_trade_id: Option<TradeId>,
    /// Quantity filled so far; never decreases.
    pub filled_qty: Quantity,
    /// Quantity still working: always `quantity - filled_qty`.
    pub leaves_qty: Quantity,
    /// Volume-weighted integer average price of the fills so far.
    pub avg_px: Option<Price>,
    /// Slippage against the intended price; left to the surrounding
    /// engine to assess, recorded here only at construction.
    pub slippage: Option<Price>,
    /// Liquidity side of the most recent fill.
    pub liquidity_side: Option<LiquiditySide>,
    /// Timestamp of the most recent applied event.
    pub ts_last: UnixNanos,
    /// Append-only history of applied events. It holds the events applied
    /// after construction; the initialization record itself is never
    /// appended (applying one is rejected as already initialized).
    pub events: Vec<OrderEvent>,
    /// Venue order ids seen, in order of appearance.
    pub venue_order_ids: Vec<VenueOrderId>,
    /// Trade ids seen, in order of appearance.
    pub trade_ids: Vec<TradeId>,
    /// Whether the order must not take liquidity. Immutable.
    pub is_post_only: bool,
    /// Whether the order may only reduce a position. Immutable.
    pub is_reduce_only: bool,
    /// Whether the quantity is quote-denominated. Immutable.
    pub is_quote_quantity: bool,
    /// Trigger under which the platform emulates the order. Immutable.
    pub emulation_trigger: Option<TriggerType>,
    /// Relationship with linked orders. Immutable.
    pub contingency_type: Option<ContingencyType>,
    /// List the order was submitted in. Immutable.
    pub order_list_id: Option<OrderListId>,
    /// Client order ids linked through the contingency. Immutable.
    pub linked_order_ids: Option<Vec<ClientOrderId>>,
    /// Parent order, for child orders. Immutable.
    pub parent_order_id: Option<ClientOrderId>,
    /// Execution algorithm in charge of the order. Immutable.
    pub exec_algorithm_id: Option<ExecAlgorithmId>,
    /// String-keyed execution-algorithm parameters; keys unique. Immutable.
    pub exec_algorithm_params: Option<Vec<(String, String)>>,
    /// Primary order of the execution-algorithm spawn sequence. Immutable.
    pub exec_spawn_id: Option<ClientOrderId>,
    /// Free-form tag string. Immutable.
    pub tags: Option<String>,
    /// Identity of the initialization event. Immutable.
    pub init_id: UUID4,
    /// Timestamp of initialization. Immutable.
    pub ts_init: UnixNanos,
    /// Sum of `last_px.raw * last_qty.raw` over the fills applied so far;
    /// the numerator of the average-price bookkeeping.
    pub fill_px_volume: u128,
}

/// The mathematical model of an [`OrderCore`]: identifier fields become the
/// character sequences they stand for, vectors become sequences.
#[verifier::ext_equal]
pub ghost struct CoreModel {
    /// Trader that owns the order.
    pub trader_id: Seq<char>,
    /// Strategy that originated the order.
    pub strategy_id: Seq<char>,
    /// Instrument the order trades, as (symbol, venue).
    pub instrument_id: (Seq<char>, Seq<char>),
    /// Client-assigned identity of the order.
    pub client_order_id: Seq<char>,
    /// Whether the order buys or sells.
    pub side: OrderSide,
    /// Which variant the order belongs to.
    pub order_type: OrderType,
    /// Initial (total) quantity.
    pub quantity: Quantity,
    /// How long the order remains in force.
    pub time_in_force: TimeInForce,
    /// Lifecycle status.
    pub status: OrderStatus,
    /// Venue-assigned identifier, once accepted.
    pub venue_order_id: Option<Seq<char>>,
    /// Position the order is booked against, once known.
    pub position_id: Option<Seq<char>>,
    /// Account the order is booked under, once accepted.
    pub account_id: Option<Seq<char>>,
    /// Identifier of the most recent fill.
    pub last_trade_id: Option<Seq<char>>,
    /// Quantity filled so far.
    pub filled_qty: Quantity,
    /// Quantity still working.
    pub leaves_qty: Quantity,
    /// Volume-weighted integer average price of the fills so far.
    pub avg_px: Option<Price>,
    /// Slippage against the intended price.
    pub slippage: Option<Price>,
    /// Liquidity side of the most recent fill.
    pub liquidity_side: Option<LiquiditySide>,
    /// Timestamp of the most recent applied event.
    pub ts_last: UnixNanos,
    /// Append-only history of applied events.
    pub events: Seq<OrderEvent>,
    /// Venue order ids seen, in order of appearance.
    pub venue_order_ids: Seq<Seq<char>>,
    /// Trade ids seen, in order of appearance.
    pub trade_ids: Seq<Seq<char>>,
    /// Whether the order must not take liquidity.
    pub is_post_only: bool,
    /// Whether the order may only reduce a position.
    pub is_reduce_only: bool,
    /// Whether the quantity is quote-denominated.
    pub is_quote_quantity: bool,
    /// Trigger under which the platform emulates the order.
    pub emulation_trigger: Option<TriggerType>,
    /// Relationship with linked orders.
    pub contingency_type: Option<ContingencyType>,
    /// List the order was submitted in.
    pub order_list_id: Option<Seq<char>>,
    /// Client order ids linked through the contingency.
    pub linked_order_ids: Option<Seq<Seq<char>>>,
    /// Parent order, for child orders.
    pub parent_order_id: Option<Seq<char>>,
    /// Execution algorithm in charge of the order.
    pub exec_algorithm_id: Option<Seq<char>>,
    /// String-keyed execution-algorithm parameters.
    pub exec_algorithm_params: Option<Seq<(Seq<char>, Seq<char>)>>,
    /// Primary order of the execution-algorithm spawn sequence.
    pub exec_spawn_id: Option<Seq<char>>,
    /// Free-form tag string.
    pub tags: Option<Seq<char>>,
    /// Identity of the initialization event.
    pub init_id: UUID4,
    /// Timestamp of initialization.
    pub ts_init: UnixNanos,
    /// Numerator of the average-price bookkeeping.
    pub fill_px_volume: u128,
}

/// View of an optional identifier as an optional character sequence.
pub open spec fn opt_chars<T: View<V = Seq<char>>>(o: Option<T>) -> Option<Seq<char>> {
    match o {
        Some(id) => Some(id@),
        None => None,
    }
}

/// View of an optional identifier vector as an optional sequence of
/// character sequences.
pub open spec fn opt_id_seq<T: View<V = Seq<char>>>(o: Option<Vec<T>>) -> Option<Seq<Seq<char>>> {
    match o {
        Some(v) => Some(v@.map_values(|id: T| id@)),
        None => None,
    }
}

/// View of an optional parameter list as sequences of character pairs.
pub open spec fn opt_param_seq(o: Option<Vec<(String, String)>>) -> Option<
    Seq<(Seq<char>, Seq<char>)>,
> {
    match o {
        Some(v) => Some(v@.map_values(|p: (String, String)| (p.0@, p.1@))),
        None => None,
    }
}

/// View of an optional string as an optional character sequence.
pub open spec fn opt_str_chars(o: Option<String>) -> Option<Seq<char>> {
    match o {
        Some(s) => Some(s@),
        None => None,
    }
}

impl View for OrderCore {
    type V = CoreModel;

    open spec fn view(&self) -> CoreModel {
        CoreModel {
            trader_id: self.trader_id@,
            strategy_id: self.strategy_id@,
            instrument_id: self.instrument_id@,
            client_order_id: self.client_order_id@,
            side: self.side,
            order_type: self.order_type,
            quantity: self.quantity,
            time_in_force: self.time_in_force,
            status: self.status,
            venue_order_id: opt_chars(self.venue_order_id),
            position_id: opt_chars(self.position_id),
            account_id: opt_chars(self.account_id),
            last_trade_id: opt_chars(self.last_trade_id),
            filled_qty: self.filled_qty,
            leaves_qty: self.leaves_qty,
            avg_px: self.avg_px,
            slippage: self.slippage,
            liquidity_side: self.liquidity_side,
            ts_last: self.ts_last,
            events: self.events@,
            venue_order_ids: self.venue_order_ids@.map_values(|id: VenueOrderId| id@),
            trade_ids: self.trade_ids@.map_values(|id: TradeId| id@),
            is_post_only: self.is_post_only,
            is_reduce_only: self.is_reduce_only,
            is_quote_quantity: self.is_quote_quantity,
            emulation_trigger: self.emulation_trigger,
            contingency_type: self.contingency_type,
            order_list_id: opt_chars(self.order_list_id),
            linked_order_ids: opt_id_seq(self.linked_order_ids),
            parent_order_id: opt_chars(self.parent_order_id),
            exec_algorithm_id: opt_chars(self.exec_algorithm_id),
            exec_algorithm_params: opt_param_seq(self.exec_algorithm_params),
            exec_spawn_id: opt_chars(self.exec_spawn_id),
            tags: opt_str_chars(self.tags),
            init_id: self.init_id,
            ts_init: self.ts_init,
            fill_px_volume: self.fill_px_volume,
        }
    }
}

/// Keys of an execution-algorithm parameter list are pairwise distinct.
pub open spec fn param_keys_unique(ps: Seq<(Seq<char>, Seq<char>)>) -> bool {
    forall|i: int, j: int| 0 <= i < j < ps.len() ==> ps[i].0 != ps[j].0
}

/// Uniqueness lifted to an optional parameter list.
pub open spec fn opt_param_keys_unique(o: Option<Seq<(Seq<char>, Seq<char>)>>) -> bool {
    match o {
        Some(ps) => param_keys_unique(ps),
        None => true,
    }
}

impl CoreModel {
    /// Well-formedness: the invariant every constructed order satisfies
    /// and every accepted event preserves.
    pub open spec fn wf(&self) -> bool {
        &&& self.quantity.raw > 0
        &&& self.filled_qty.precision == self.quantity.precision
        &&& self.leaves_qty.precision == self.quantity.precision
        &&& self.filled_qty.raw + self.leaves_qty.raw == self.quantity.raw
        &&& self.ts_last >= self.ts_init
        &&& opt_param_keys_unique(self.exec_algorithm_params)
        &&& self.fill_px_volume <= (i64::MAX as nat) * self.filled_qty.raw
        &&& (self.filled_qty.raw == 0 ==> self.fill_px_volume == 0 && self.avg_px is None)
        &&& (self.filled_qty.raw > 0 ==> match self.avg_px {
            Some(p) => p.raw == self.fill_px_volume as int / self.filled_qty.raw as int,
            None => false,
        })
    }

    /// The order has reached a terminal status: no event moves it further.
    pub open spec fn is_terminal(&self) -> bool {
        ||| self.status == OrderStatus::Rejected
        ||| self.status == OrderStatus::Canceled
        ||| self.status == OrderStatus::Expired
        ||| self.status == OrderStatus::Filled
    }

    /// The order is exactly as freshly constructed: nothing applied yet.
    pub open spec fn is_pristine(&self) -> bool {
        &&& self.status == OrderStatus::Initialized
        &&& self.filled_qty.raw == 0
        &&& self.events.len() == 0
        &&& self.venue_order_ids.len() == 0
        &&& self.trade_ids.len() == 0
        &&& self.venue_order_id is None
        &&& self.position_id is None
        &&& self.account_id is None
        &&& self.last_trade_id is None
        &&& self.avg_px is None
        &&& self.slippage is None
        &&& self.liquidity_side is None
        &&& self.ts_last == self.ts_init
        &&& self.fill_px_volume == 0
    }
}

/// Whether the event's transition is allowed from the order's status.
/// Terminal statuses admit nothing; a trigger is admitted only for
/// stop-type orders resting in the accepted status.
pub open spec fn transition_allowed(m: CoreModel, e: OrderEvent) -> bool {
    match e {
        OrderEvent::Initialized(_) => false,
        OrderEvent::Submitted { .. } => m.status == OrderStatus::Initialized,
        OrderEvent::Accepted { .. } => m.status == OrderStatus::Submitted || m.status
            == OrderStatus::Triggered,
        OrderEvent::Rejected { .. } => m.status == OrderStatus::Submitted,
        OrderEvent::Triggered { .. } => m.status == OrderStatus::Accepted && is_stop_type(
            m.order_type,
        ),
        OrderEvent::Filled { .. } => m.status == OrderStatus::Submitted || m.status
            == OrderStatus::Accepted || m.status == OrderStatus::Triggered || m.status
            == OrderStatus::PartiallyFilled,
        OrderEvent::Canceled { .. } => m.status == OrderStatus::Submitted || m.status
            == OrderStatus::Accepted || m.status == OrderStatus::Triggered || m.status
            == OrderStatus::PartiallyFilled,
        OrderEvent::Expired { .. } => m.status == OrderStatus::Submitted || m.status
            == OrderStatus::Accepted || m.status == OrderStatus::Triggered,
    }
}

/// Why the order rejects the event, if it does. `None` means the event is
/// accepted and [`step`] describes the outcome.
pub open spec fn rejection(m: CoreModel, e: OrderEvent) -> Option<OrderError> {
    if e matches OrderEvent::Initialized(_) {
        Some(OrderError::AlreadyInitialized)
    } else if !transition_allowed(m, e) {
        Some(OrderError::InvalidStatusTransition)
    } else if e.ts_event_spec() < m.ts_last {
        Some(OrderError::StaleEventTimestamp)
    } else {
        match e {
            OrderEvent::Filled { last_qty, last_px, .. } => {
                if last_qty.raw == 0 {
                    Some(OrderError::FillNotPositive)
                } else if last_qty.precision != m.quantity.precision {
                    Some(OrderError::FillPrecisionMismatch)
                } else if last_qty.raw > m.leaves_qty.raw {
                    Some(OrderError::FillExceedsLeaves)
                } else if last_px.raw < 0 {
                    Some(OrderError::NegativeFillPrice)
                } else if m.avg_px matches Some(p) && p.precision != last_px.precision {
                    Some(OrderError::FillPrecisionMismatch)
                } else {
                    None
                }
            },
            _ => None,
        }
    }
}

/// The model after the event is applied. Meaningful only when
/// `rejection(m, e)` is `None`.
pub open spec fn step(m: CoreModel, e: OrderEvent) -> CoreModel {
    match e {
        OrderEvent::Initialized(_) => m,
        OrderEvent::Submitted { ts_event, .. } => (CoreModel {
            status: OrderStatus::Submitted,
            ts_last: ts_event,
            events: m.events.push(e),
            ..m
        }),
        OrderEvent::Accepted { venue_order_id, account_id, ts_event, .. } => (CoreModel {
            status: OrderStatus::Accepted,
            venue_order_id: Some(venue_order_id@),
            account_id: Some(account_id@),
            venue_order_ids: m.venue_order_ids.push(venue_order_id@),
            ts_last: ts_event,
            events: m.events.push(e),
            ..m
        }),
        OrderEvent::Rejected { ts_event, .. } => (CoreModel {
            status: OrderStatus::Rejected,
            ts_last: ts_event,
            events: m.events.push(e),
            ..m
        }),
        OrderEvent::Triggered { ts_event, .. } => (CoreModel {
            status: OrderStatus::Triggered,
            ts_last: ts_event,
            events: m.events.push(e),
            ..m
        }),
        OrderEvent::Filled {
            trade_id,
            position_id,
            last_qty,
            last_px,
            liquidity_side,
            ts_event,
            ..
        } => {
            let new_filled = (m.filled_qty.raw + last_qty.raw) as u64;
            let new_leaves = (m.leaves_qty.raw - last_qty.raw) as u64;
            let new_vol = (m.fill_px_volume + last_px.raw * last_qty.raw) as u128;
            CoreModel {
                status: if new_leaves == 0 {
                    OrderStatus::Filled
                } else {
                    OrderStatus::PartiallyFilled
                },
                filled_qty: Quantity { raw: new_filled, precision: m.quantity.precision },
                leaves_qty: Quantity { raw: new_leaves, precision: m.quantity.precision },
                avg_px: Some(
                    Price {
                        raw: (new_vol as int / new_filled as int) as i64,
                        precision: last_px.precision,
                    },
                ),
                fill_px_volume: new_vol,
                last_trade_id: Some(trade_id@),
                trade_ids: m.trade_ids.push(trade_id@),
                position_id: match position_id {
                    Some(p) => Some(p@),
                    None => m.position_id,
                },
                liquidity_side: Some(liquidity_side),
                ts_last: ts_event,
                events: m.events.push(e),
                ..m
            }
        },
        OrderEvent::Canceled { ts_event, .. } => (CoreModel {
            status: OrderStatus::Canceled,
            ts_last: ts_event,
            events: m.events.push(e),
            ..m
        }),
        OrderEvent::Expired { ts_event, .. } => (CoreModel {
            status: OrderStatus::Expired,
            ts_last: ts_event,
            events: m.events.push(e),
            ..m
        }),
    }
}

/// An accepted event preserves well-formedness, never decreases the filled
/// quantity, never moves the last-update timestamp back, and appends
/// exactly the applied event to the history.
pub proof fn lemma_step_preserves_wf(m: CoreModel, e: OrderEvent)
    requires
        m.wf(),
        rejection(m, e) is None,
    ensures
        step(m, e).wf(),
        step(m, e).filled_qty.raw >= m.filled_qty.raw,
        step(m, e).ts_last >= m.ts_last,
        step(m, e).ts_init == m.ts_init,
        step(m, e).quantity == m.quantity,
        step(m, e).events == m.events.push(e),
{
    match e {
        OrderEvent::Filled { last_qty, last_px, .. } => {
            lemma_fill_bounds(m, last_qty, last_px);
        },
        _ => {},
    }
}

/// Checks that no two parameters share one key.
fn params_keys_all_unique(v: &Vec<(String, String)>) -> (r: bool)
    ensures
        r == param_keys_unique(v@.map_values(|p: (String, String)| (p.0@, p.1@))),
{
    let ghost ps = v@.map_values(|p: (String, String)| (p.0@, p.1@));
    let n = v.len();
    let mut i: usize = 0;
    while i < n
        invariant
            n == v.len(),
            i <= n,
            ps == v@.map_values(|p: (String, String)| (p.0@, p.1@)),
            forall|a: int, b: int| 0 <= a < b < v@.len() && a < i ==> ps[a].0 != ps[b].0,
        decreases n - i,
    {
        let mut j: usize = i + 1;
        while j < n
            invariant
                n == v.len(),
                i < j <= n,
                ps == v@.map_values(|p: (String, String)| (p.0@, p.1@)),
                forall|b: int| i < b < j ==> ps[i as int].0 != ps[b].0,
            decreases n - j,
        {
            if v[i].0 == v[j].0 {
                proof {
                    assert(ps[i as int].0 == v@[i as int].0@);
                    assert(ps[j as int].0 == v@[j as int].0@);
                }
                return false;
            }
            j = j + 1;
        }
        i = i + 1;
    }
    true
}

/// The model of a freshly constructed order core: status `Initialized`,
/// nothing filled, the whole quantity still working, empty history, and
/// the last-update timestamp equal to the initialization timestamp.
pub open spec fn initial_core_model(
    trader_id: Seq<char>,
    strategy_id: Seq<char>,
    instrument_id: (Seq<char>, Seq<char>),
    client_order_id: Seq<char>,
    side: OrderSide,
    order_type: OrderType,
    quantity: Quantity,
    time_in_force: TimeInForce,
    post_only: bool,
    reduce_only: bool,
    quote_quantity: bool,
    emulation_trigger: Option<TriggerType>,
    contingency_type: Option<ContingencyType>,
    order_list_id: Option<Seq<char>>,
    linked_order_ids: Option<Seq<Seq<char>>>,
    parent_order_id: Option<Seq<char>>,
    exec_algorithm_id: Option<Seq<char>>,
    exec_algorithm_params: Option<Seq<(Seq<char>, Seq<char>)>>,
    exec_spawn_id: Option<Seq<char>>,
    tags: Option<Seq<char>>,
    init_id: UUID4,
    ts_init: UnixNanos,
) -> CoreModel {
    CoreModel {
        trader_id,
        strategy_id,
        instrument_id,
        client_order_id,
        side,
        order_type,
        quantity,
        time_in_force,
        status: OrderStatus::Initialized,
        venue_order_id: None,
        position_id: None,
        account_id: None,
        last_trade_id: None,
        filled_qty: Quantity { raw: 0, precision: quantity.precision },
        leaves_qty: quantity,
        avg_px: None,
        slippage: None,
        liquidity_side: None,
        ts_last: ts_init,
        events: Seq::empty(),
        venue_order_ids: Seq::empty(),
        trade_ids: Seq::empty(),
        is_post_only: post_only,
        is_reduce_only: reduce_only,
        is_quote_quantity: quote_quantity,
        emulation_trigger,
        contingency_type,
        order_list_id,
        linked_order_ids,
        parent_order_id,
        exec_algorithm_id,
        exec_algorithm_params,
        exec_spawn_id,
        tags,
        init_id,
        ts_init,
        fill_px_volume: 0,
    }
}

impl OrderCore {
    /// Builds the shared state of a new order. Fails when the quantity is
    /// not positive or the execution-algorithm parameter keys are not
    /// unique; on success every invariant of [`CoreModel::wf`] holds and
    /// the state is pristine.
    pub fn new(
        trader_id: TraderId,
        strategy_id: StrategyId,
        instrument_id: InstrumentId,
        client_order_id: ClientOrderId,
        order_side: OrderSide,
        order_type: OrderType,
        quantity: Quantity,
        time_in_force: TimeInForce,
        post_only: bool,
        reduce_only: bool,
        quote_quantity: bool,
        emulation_trigger: Option<TriggerType>,
        contingency_type: Option<ContingencyType>,
        order_list_id: Option<OrderListId>,
        linked_order_ids: Option<Vec<ClientOrderId>>,
        parent_order_id: Option<ClientOrderId>,
        exec_algorithm_id: Option<ExecAlgorithmId>,
        exec_algorithm_params: Option<Vec<(String, String)>>,
        exec_spawn_id: Option<ClientOrderId>,
        tags: Option<String>,
        init_id: UUID4,
        ts_init: UnixNanos,
    ) -> (r: Result<OrderCore, ValidationError>)
        ensures
            r is Ok <==> quantity.raw > 0 && opt_param_keys_unique(
                opt_param_seq(exec_algorithm_params),
            ),
            quantity.raw == 0 ==> r == Err::<OrderCore, ValidationError>(
                ValidationError::NonPositiveQuantity,
            ),
            quantity.raw > 0 && !opt_param_keys_unique(opt_param_seq(exec_algorithm_params)) ==> r
                == Err::<OrderCore, ValidationError>(ValidationError::DuplicateExecParam),
            r matches Ok(c) ==> c@ == initial_core_model(
                trader_id@,
                strategy_id@,
                instrument_id@,
                client_order_id@,
                order_side,
                order_type,
                quantity,
                time_in_force,
                post_only,
                reduce_only,
                quote_quantity,
                emulation_trigger,
                contingency_type,
                opt_chars(order_list_id),
                opt_id_seq(linked_order_ids),
                opt_chars(parent_order_id),
                opt_chars(exec_algorithm_id),
                opt_param_seq(exec_algorithm_params),
                opt_chars(exec_spawn_id),
                opt_str_chars(tags),
                init_id,
                ts_init,
            ),
            r matches Ok(c) ==> c@.wf() && c@.is_pristine(),
    {
        if !quantity.is_positive() {
            return Err(ValidationError::NonPositiveQuantity);
        }
        match &exec_algorithm_params {
            Some(v) => {
                if !params_keys_all_unique(v) {
                    return Err(ValidationError::DuplicateExecParam);
                }
            },
            None => {},
        }
        let c = OrderCore {
            trader_id,
            strategy_id,
            instrument_id,
            client_order_id,
            side: order_side,
            order_type,
            quantity,
            time_in_force,
            status: OrderStatus::Initialized,
            venue_order_id: None,
            position_id: None,
            account_id: None,
            last_trade_id: None,
            filled_qty: Quantity { raw: 0, precision: quantity.precision },
            leaves_qty: quantity,
            avg_px: None,
            slippage: None,
            liquidity_side: None,
            ts_last: ts_init,
            events: Vec::new(),
            venue_order_ids: Vec::new(),
            trade_ids: Vec::new(),
            is_post_only: post_only,
            is_reduce_only: reduce_only,
            is_quote_quantity: quote_quantity,
            emulation_trigger,
            contingency_type,
            order_list_id,
            linked_order_ids,
            parent_order_id,
            exec_algorithm_id,
            exec_algorithm_params,
            exec_spawn_id,
            tags,
            init_id,
            ts_init,
            fill_px_volume: 0,
        };
        proof {
            assert(c.venue_order_ids@.map_values(|id: VenueOrderId| id@) =~= Seq::<
                Seq<char>,
            >::empty());
            assert(c.trade_ids@.map_values(|id: TradeId| id@) =~= Seq::<Seq<char>>::empty());
            assert(c@ =~= initial_core_model(
                trader_id@,
                strategy_id@,
                instrument_id@,
                client_order_id@,
                order_side,
                order_type,
                quantity,
                time_in_force,
                post_only,
                reduce_only,
                quote_quantity,
                emulation_trigger,
                contingency_type,
                opt_chars(order_list_id),
                opt_id_seq(linked_order_ids),
                opt_chars(parent_order_id),
                opt_chars(exec_algorithm_id),
                opt_param_seq(exec_algorithm_params),
                opt_chars(exec_spawn_id),
                opt_str_chars(tags),
                init_id,
                ts_init,
            ));
        }
        Ok(c)
    }

    /// Executable twin of [`transition_allowed`].
    fn transition_allowed_exec(&self, event: &OrderEvent) -> (r: bool)
        ensures
            r == transition_allowed(self@, *event),
    {
        match event {
            OrderEvent::Initialized(_) => false,
            OrderEvent::Submitted { .. } => self.status == OrderStatus::Initialized,
            OrderEvent::Accepted { .. } => self.status == OrderStatus::Submitted || self.status
                == OrderStatus::Triggered,
            OrderEvent::Rejected { .. } => self.status == OrderStatus::Submitted,
            OrderEvent::Triggered { .. } => self.status == OrderStatus::Accepted
                && order_type_is_stop(self.order_type),
            OrderEvent::Filled { .. } => self.status == OrderStatus::Submitted || self.status
                == OrderStatus::Accepted || self.status == OrderStatus::Triggered || self.status
                == OrderStatus::PartiallyFilled,
            OrderEvent::Canceled { .. } => self.status == OrderStatus::Submitted || self.status
                == OrderStatus::Accepted || self.status == OrderStatus::Triggered || self.status
                == OrderStatus::PartiallyFilled,
            OrderEvent::Expired { .. } => self.status == OrderStatus::Submitted || self.status
                == OrderStatus::Accepted || self.status == OrderStatus::Triggered,
        }
    }

    /// Applies one lifecycle event.
    ///
    /// An accepted event advances the state exactly as [`step`] describes;
    /// a rejected event returns why and leaves the state untouched. In
    /// either case the invariant holds afterwards, the filled quantity has
    /// not decreased, and the last-update timestamp has not moved back
    /// (so it never precedes the initialization timestamp).
    pub fn apply(&mut self, event: OrderEvent) -> (r: Result<(), OrderError>)
        requires
            old(self)@.wf(),
        ensures
            final(self)@.wf(),
            r is Ok <==> rejection(old(self)@, event) is None,
            r is Ok ==> final(self)@ == step(old(self)@, event),
            r matches Err(err) ==> final(self)@ == old(self)@ && rejection(old(self)@, event)
                == Some(err),
            final(self)@.filled_qty.raw >= old(self)@.filled_qty.raw,
            final(self)@.ts_last >= old(self)@.ts_last,
            final(self)@.ts_init == old(self)@.ts_init,
    {
        if let OrderEvent::Initialized(_) = &event {
            return Err(OrderError::AlreadyInitialized);
        }
        if !self.transition_allowed_exec(&event) {
            return Err(OrderError::InvalidStatusTransition);
        }
        let ts = event.ts_event();
        if ts < self.ts_last {
            return Err(OrderError::StaleEventTimestamp);
        }
        match &event {
            OrderEvent::Filled { last_qty, last_px, .. } => {
                if last_qty.raw == 0 {
                    return Err(OrderError::FillNotPositive);
                }
                if last_qty.precision != self.quantity.precision {
                    return Err(OrderError::FillPrecisionMismatch);
                }
                if last_qty.raw > self.leaves_qty.raw {
                    return Err(OrderError::FillExceedsLeaves);
                }
                if last_px.raw < 0 {
                    return Err(OrderError::NegativeFillPrice);
                }
                match &self.avg_px {
                    Some(p) => {
                        if p.precision != last_px.precision {
                            return Err(OrderError::FillPrecisionMismatch);
                        }
                    },
                    None => {},
                }
            },
            _ => {},
        }
        proof {
            lemma_step_preserves_wf(old(self)@, event);
        }
        match &event {
            OrderEvent::Initialized(_) => {},
            OrderEvent::Submitted { .. } => {
                self.status = OrderStatus::Submitted;
            },
            OrderEvent::Accepted { venue_order_id, account_id, .. } => {
                self.status = OrderStatus::Accepted;
                self.venue_order_id = Some(*venue_order_id);
                self.account_id = Some(*account_id);
                self.venue_order_ids.push(*venue_order_id);
            },
            OrderEvent::Rejected { .. } => {
                self.status = OrderStatus::Rejected;
            },
            OrderEvent::Triggered { .. } => {
                self.status = OrderStatus::Triggered;
            },
            OrderEvent::Filled {
                trade_id,
                position_id,
                last_qty,
                last_px,
                liquidity_side,
                ..
            } => {
                proof {
                    lemma_fill_bounds(old(self)@, *last_qty, *last_px);
                }
                let vol_add = (last_px.raw as u128) * (last_qty.raw as u128);
                let new_vol = self.fill_px_volume + vol_add;
                let new_filled = self.filled_qty.raw + last_qty.raw;
                let new_leaves = self.leaves_qty.raw - last_qty.raw;
                let avg_raw = new_vol / (new_filled as u128);
                self.filled_qty = Quantity { raw: new_filled, precision: self.quantity.precision };
                self.leaves_qty = Quantity { raw: new_leaves, precision: self.quantity.precision };
                self.avg_px = Some(Price { raw: avg_raw as i64, precision: last_px.precision });
                self.fill_px_volume = new_vol;
                self.last_trade_id = Some(*trade_id);
                self.trade_ids.push(*trade_id);
                match position_id {
                    Some(p) => {
                        self.position_id = Some(*p);
                    },
                    None => {},
                }
                self.liquidity_side = Some(*liquidity_side);
                self.status = if new_leaves == 0 {
                    OrderStatus::Filled
                } else {
                    OrderStatus::PartiallyFilled
                };
            },
            OrderEvent::Canceled { .. } => {
                self.status = OrderStatus::Canceled;
            },
            OrderEvent::Expired { .. } => {
                self.status = OrderStatus::Expired;
            },
        }
        self.ts_last = ts;
        self.events.push(event);
        proof {
            assert(self@ =~= step(old(self)@, event));
        }
        Ok(())
    }
}

/// Arithmetic bounds of one accepted fill: the new filled quantity stays
/// within the order quantity, the price-volume numerator stays within
/// `i64::MAX` times the new filled quantity (so it fits 128 bits), and the
/// resulting integer average stays within `i64::MAX`.
pub proof fn lemma_fill_bounds(m: CoreModel, last_qty: Quantity, last_px: Price)
    requires
        m.wf(),
        last_qty.raw > 0,
        last_qty.raw <= m.leaves_qty.raw,
        last_px.raw >= 0,
    ensures
        m.filled_qty.raw + last_qty.raw <= m.quantity.raw,
        m.fill_px_volume + last_px.raw * last_qty.raw <= (i64::MAX as nat) * (m.filled_qty.raw
            + last_qty.raw),
        m.fill_px_volume + last_px.raw * last_qty.raw <= u128::MAX,
        0 <= (m.fill_px_volume + last_px.raw * last_qty.raw) / (m.filled_qty.raw
            + last_qty.raw) as int <= i64::MAX,
{
    let f = m.filled_qty.raw as int;
    let q = last_qty.raw as int;
    let px = last_px.raw as int;
    let v = m.fill_px_volume as int;
    let mx = i64::MAX as int;
    let nf = f + q;
    let nv = v + px * q;
    assert(px * q <= mx * q) by (nonlinear_arith)
        requires
            0 <= px <= mx,
            q >= 0,
    ;
    assert(mx * f + mx * q == mx * nf) by (nonlinear_arith)
        requires
            nf == f + q,
    ;
    assert(nv <= mx * nf);
    assert(nv / nf <= mx) by (nonlinear_arith)
        requires
            nf > 0,
            nv >= 0,
            mx >= 0,
            nv <= mx * nf,
    ;
    assert(nv <= u128::MAX) by (nonlinear_arith)
        requires
            nv <= mx * nf,
            nf <= u64::MAX,
            mx == i64::MAX,
    ;
}

/// The model after a whole sequence of events: each event in turn is
/// applied if the order accepts it and ignored if it rejects it, exactly
/// as the executable [`OrderCore::apply`] behaves.
pub open spec fn apply_all(m: CoreModel, es: Seq<OrderEvent>) -> CoreModel
    decreases es.len(),
{
    if es.len() == 0 {
        m
    } else {
        let m1 = if rejection(m, es[0]) is None {
            step(m, es[0])
        } else {
            m
        };
        apply_all(m1, es.skip(1))
    }
}

/// Across any event history: well-formedness is preserved — in particular
/// `filled_qty + leaves_qty == quantity` holds at every point, since every
/// prefix of a history is itself a history — the filled quantity never
/// decreases, the initial quantity never changes, and the last-update
/// timestamp never moves back (so it never precedes the initialization
/// timestamp).
pub proof fn lemma_history_invariant(m: CoreModel, es: Seq<OrderEvent>)
    requires
        m.wf(),
    ensures
        apply_all(m, es).wf(),
        apply_all(m, es).filled_qty.raw >= m.filled_qty.raw,
        apply_all(m, es).quantity == m.quantity,
        apply_all(m, es).ts_last >= m.ts_last,
        apply_all(m, es).ts_init == m.ts_init,
    decreases es.len(),
{
    if es.len() > 0 {
        if rejection(m, es[0]) is None {
            lemma_step_preserves_wf(m, es[0]);
            lemma_history_invariant(step(m, es[0]), es.skip(1));
        } else {
            lemma_history_invariant(m, es.skip(1));
        }
    }
}

/// Applying a concatenated history equals applying its parts in turn.
pub proof fn lemma_apply_all_concat(m: CoreModel, a: Seq<OrderEvent>, b: Seq<OrderEvent>)
    ensures
        apply_all(m, a + b) == apply_all(apply_all(m, a), b),
    decreases a.len(),
{
    if a.len() == 0 {
        assert(a + b =~= b);
    } else {
        let m1 = if rejection(m, a[0]) is None {
            step(m, a[0])
        } else {
            m
        };
        assert((a + b)[0] == a[0]);
        assert((a + b).skip(1) =~= a.skip(1) + b);
        lemma_apply_all_concat(m1, a.skip(1), b);
    }
}

/// At every point of an order's history the invariant holds: in
/// particular `filled_qty + leaves_qty == quantity` after every prefix of
/// the applied events.
pub proof fn lemma_invariant_at_every_point(m: CoreModel, es: Seq<OrderEvent>)
    requires
        m.wf(),
    ensures
        forall|i: int| 0 <= i <= es.len() ==> (#[trigger] apply_all(m, es.take(i))).wf(),
{
    assert forall|i: int| 0 <= i <= es.len() implies (#[trigger] apply_all(m, es.take(i))).wf() by {
        lemma_history_invariant(m, es.take(i));
    }
}

/// Across an order's history the filled quantity never decreases and the
/// last-update timestamp never moves back: between any two points of the
/// history, the later state has filled at least as much and is stamped at
/// least as late.
pub proof fn lemma_history_monotone(m: CoreModel, es: Seq<OrderEvent>, i: int, j: int)
    requires
        m.wf(),
        0 <= i <= j <= es.len(),
    ensures
        apply_all(m, es.take(j)).filled_qty.raw >= apply_all(m, es.take(i)).filled_qty.raw,
        apply_all(m, es.take(j)).ts_last >= apply_all(m, es.take(i)).ts_last,
        apply_all(m, es.take(j)).quantity == apply_all(m, es.take(i)).quantity,
{
    assert(es.take(j) =~= es.take(i) + es.subrange(i, j));
    lemma_apply_all_concat(m, es.take(i), es.subrange(i, j));
    lemma_history_invariant(m, es.take(i));
    lemma_history_invariant(apply_all(m, es.take(i)), es.subrange(i, j));
}

} // verus!
