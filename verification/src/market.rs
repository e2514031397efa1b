//! The market order variant: immediate execution at the best available
//! price, no limit price and no trigger.

use vstd::prelude::*;
use vstd::pervasive::unreached;

use crate::base::Order;
use crate::copies::{copy_opt_params, copy_opt_string, copy_opt_vec};
use crate::enums::{
    ContingencyType, LiquiditySide, OrderSide, OrderStatus, OrderType, TimeInForce, TriggerType,
};
use crate::errors::{OrderError, ValidationError};
use crate::events::{InitModel, OrderEvent, OrderInitialized, UnixNanos};
use crate::identifiers::{
    AccountId, ClientOrderId, ExecAlgorithmId, InstrumentId, OrderListId, PositionId, StrategyId,
    Symbol, TradeId, TraderId, Venue, VenueOrderId, UUID4,
};
use crate::order_core::{
    initial_core_model, opt_chars, opt_id_seq, opt_param_keys_unique, opt_param_seq,
    opt_str_chars, rejection, step, CoreModel, OrderCore,
};
use crate::types::{Price, Quantity};

verus! {

/// An order to trade at the best available price immediately. It carries
/// no field beyond the shared state; its price and trigger accessors
/// always report absent.
pub struct MarketOrder {
    core: OrderCore,
}

impl View for MarketOrder {
    type V = CoreModel;

    closed spec fn view(&self) -> CoreModel {
        self.core@
    }
}

/// What holds of the shared state of every market order: the market order
/// type, never post-only, and never emulated.
pub open spec fn market_invariant(m: CoreModel) -> bool {
    &&& m.order_type == OrderType::Market
    &&& !m.is_post_only
    &&& m.emulation_trigger is None
}

/// The initialization record a market order serializes itself into:
/// pricing and display fields absent, the event identity and timestamps
/// taken from initialization, and the reconciliation mark clear.
pub open spec fn init_of_market(m: CoreModel) -> InitModel {
    InitModel {
        trader_id: m.trader_id,
        strategy_id: m.strategy_id,
        instrument_id: m.instrument_id,
        client_order_id: m.client_order_id,
        order_side: m.side,
        order_type: m.order_type,
        quantity: m.quantity,
        price: None,
        trigger_price: None,
        trigger_type: None,
        time_in_force: m.time_in_force,
        expire_time: None,
        post_only: m.is_post_only,
        reduce_only: m.is_reduce_only,
        quote_quantity: m.is_quote_quantity,
        display_qty: None,
        limit_offset: None,
        trailing_offset: None,
        trailing_offset_type: None,
        emulation_trigger: m.emulation_trigger,
        contingency_type: m.contingency_type,
        order_list_id: m.order_list_id,
        linked_order_ids: m.linked_order_ids,
        parent_order_id: m.parent_order_id,
        exec_algorithm_id: m.exec_algorithm_id,
        exec_algorithm_params: m.exec_algorithm_params,
        exec_spawn_id: m.exec_spawn_id,
        tags: m.tags,
        event_id: m.init_id,
        ts_event: m.ts_init,
        ts_init: m.ts_init,
        reconciliation: false,
    }
}

/// The shared state a market order built from an initialization record
/// holds: the record's shared fields mapped across, the market order
/// type, post-only forced clear, and no emulation trigger.
pub open spec fn market_core_of_init(e: InitModel) -> CoreModel {
    initial_core_model(
        e.trader_id,
        e.strategy_id,
        e.instrument_id,
        e.client_order_id,
        e.order_side,
        OrderType::Market,
        e.quantity,
        e.time_in_force,
        false,
        e.reduce_only,
        e.quote_quantity,
        None,
        e.contingency_type,
        e.order_list_id,
        e.linked_order_ids,
        e.parent_order_id,
        e.exec_algorithm_id,
        e.exec_algorithm_params,
        e.exec_spawn_id,
        e.tags,
        e.event_id,
        e.ts_event,
    )
}

impl MarketOrder {
    /// Builds a market order. Fails when the quantity is not positive or
    /// the execution-algorithm parameter keys are not unique.
    pub fn new(
        trader_id: TraderId,
        strategy_id: StrategyId,
        instrument_id: InstrumentId,
        client_order_id: ClientOrderId,
        order_side: OrderSide,
        quantity: Quantity,
        time_in_force: TimeInForce,
        reduce_only: bool,
        quote_quantity: bool,
        contingency_type: Option<ContingencyType>,
        order_list_id: Option<OrderListId>,
        linked_order_ids: Option<Vec<ClientOrderId>>,
        parent_order_id: Option<ClientOrderId>,
        exec_algorithm_id: Option<ExecAlgorithmId>,
        exec_algorithm_params: Option<Vec<(String, String)>>,
        exec_spawn_id: Option<ClientOrderId>,
        tags: Option<String>,
        init_id: UUID4,
        ts_init: UnixNanos,
    ) -> (r: Result<MarketOrder, ValidationError>)
        ensures
            r is Ok <==> quantity.raw > 0 && opt_param_keys_unique(
                opt_param_seq(exec_algorithm_params),
            ),
            quantity.raw == 0 ==> r == Err::<MarketOrder, ValidationError>(
                ValidationError::NonPositiveQuantity,
            ),
            quantity.raw > 0 && !opt_param_keys_unique(opt_param_seq(exec_algorithm_params)) ==> r
                == Err::<MarketOrder, ValidationError>(ValidationError::DuplicateExecParam),
            r matches Ok(o) ==> o@ == initial_core_model(
                trader_id@,
                strategy_id@,
                instrument_id@,
                client_order_id@,
                order_side,
                OrderType::Market,
                quantity,
                time_in_force,
                false,
                reduce_only,
                quote_quantity,
                None,
                contingency_type,
                opt_chars(order_list_id),
                opt_id_seq(linked_order_ids),
                opt_chars(parent_order_id),
                opt_chars(exec_algorithm_id),
                opt_param_seq(exec_algorithm_params),
                opt_chars(exec_spawn_id),
                opt_str_chars(tags),
                init_id,
                ts_init,
            ),
            r matches Ok(o) ==> o@.wf() && o@.is_pristine() && market_invariant(o@),
    {
        match OrderCore::new(
            trader_id,
            strategy_id,
            instrument_id,
            client_order_id,
            order_side,
            OrderType::Market,
            quantity,
            time_in_force,
            false,
            reduce_only,
            quote_quantity,
            None,
            contingency_type,
            order_list_id,
            linked_order_ids,
            parent_order_id,
            exec_algorithm_id,
            exec_algorithm_params,
            exec_spawn_id,
            tags,
            init_id,
            ts_init,
        ) {
            Ok(core) => Ok(MarketOrder { core }),
            Err(e) => Err(e),
        }
    }

    /// Applies one lifecycle event; see [`OrderCore::apply`].
    pub fn apply(&mut self, event: OrderEvent) -> (r: Result<(), OrderError>)
        requires
            old(self)@.wf(),
        ensures
            final(self)@.wf(),
            r is Ok <==> rejection(old(self)@, event) is None,
            r is Ok ==> final(self)@ == step(old(self)@, event),
            r matches Err(err) ==> final(self)@ == old(self)@ && rejection(old(self)@, event)
                == Some(err),
            final(self)@.filled_qty.raw >= old(self)@.filled_qty.raw,
            final(self)@.ts_last >= old(self)@.ts_last,
    {
        self.core.apply(event)
    }

    /// Builds a market order from an initialization record, exactly as
    /// [`market_core_of_init`] describes. Fails, wrapping the validation
    /// error, when the record's quantity is not positive or its parameter
    /// keys are not unique.
    pub fn from_initialized(event: OrderInitialized) -> (r: Result<MarketOrder, OrderError>)
        ensures
            r is Ok <==> event.quantity.raw > 0 && opt_param_keys_unique(
                event@.exec_algorithm_params,
            ),
            event.quantity.raw == 0 ==> r == Err::<MarketOrder, OrderError>(
                OrderError::Validation(ValidationError::NonPositiveQuantity),
            ),
            event.quantity.raw > 0 && !opt_param_keys_unique(event@.exec_algorithm_params) ==> r
                == Err::<MarketOrder, OrderError>(
                OrderError::Validation(ValidationError::DuplicateExecParam),
            ),
            r matches Ok(o) ==> o@ == market_core_of_init(event@),
            r matches Ok(o) ==> o@.wf() && o@.is_pristine() && market_invariant(o@),
    {
        match MarketOrder::new(
            event.trader_id,
            event.strategy_id,
            event.instrument_id,
            event.client_order_id,
            event.order_side,
            event.quantity,
            event.time_in_force,
            event.reduce_only,
            event.quote_quantity,
            event.contingency_type,
            event.order_list_id,
            event.linked_order_ids,
            event.parent_order_id,
            event.exec_algorithm_id,
            event.exec_algorithm_params,
            event.exec_spawn_id,
            event.tags,
            event.event_id,
            event.ts_event,
        ) {
            Ok(o) => Ok(o),
            Err(e) => Err(OrderError::Validation(e)),
        }
    }

    /// Serializes the order back into an initialization record, exactly
    /// as [`init_of_market`] describes: fields without meaning to a
    /// market order are encoded absent, and the reconciliation mark is
    /// clear (this direction never stands for venue reconciliation).
    pub fn to_initialized(&self) -> (r: OrderInitialized)
        ensures
            r@ == init_of_market(self@),
    {
        let r = OrderInitialized {
            trader_id: self.core.trader_id,
            strategy_id: self.core.strategy_id,
            instrument_id: self.core.instrument_id,
            client_order_id: self.core.client_order_id,
            order_side: self.core.side,
            order_type: self.core.order_type,
            quantity: self.core.quantity,
            price: None,
            trigger_price: None,
            trigger_type: None,
            time_in_force: self.core.time_in_force,
            expire_time: None,
            post_only: self.core.is_post_only,
            reduce_only: self.core.is_reduce_only,
            quote_quantity: self.core.is_quote_quantity,
            display_qty: None,
            limit_offset: None,
            trailing_offset: None,
            trailing_offset_type: None,
            emulation_trigger: self.core.emulation_trigger,
            contingency_type: self.core.contingency_type,
            order_list_id: self.core.order_list_id,
            linked_order_ids: copy_opt_vec(&self.core.linked_order_ids),
            parent_order_id: self.core.parent_order_id,
            exec_algorithm_id: self.core.exec_algorithm_id,
            exec_algorithm_params: copy_opt_params(&self.core.exec_algorithm_params),
            exec_spawn_id: self.core.exec_spawn_id,
            tags: copy_opt_string(&self.core.tags),
            event_id: self.core.init_id,
            ts_event: self.core.ts_init,
            ts_init: self.core.ts_init,
            reconciliation: false,
        };
        proof {
            assert(r@ =~= init_of_market(self@));
        }
        r
    }
}

/// A market order for testing: buy 100,000 units at precision 0, in force
/// for the day, with placeholder identifiers and timestamp zero.
impl Default for MarketOrder {
    fn default() -> (r: MarketOrder)
        ensures
            r@.wf(),
            r@.is_pristine(),
            market_invariant(r@),
            r@.quantity == (Quantity { raw: 100000, precision: 0 }),
            r@.side == OrderSide::Buy,
            r@.time_in_force == TimeInForce::Day,
            r@.ts_init == 0,
    {
        proof {
            reveal_strlit("TRADER-001");
            reveal_strlit("S-001");
            reveal_strlit("AUD/USD");
            reveal_strlit("SIM");
            reveal_strlit("O-19700101-0000-001-001-1");
            assert(!crate::identifiers::is_whitespace_char("TRADER-001"@[0]));
            assert(!crate::identifiers::is_whitespace_char("S-001"@[0]));
            assert(!crate::identifiers::is_whitespace_char("AUD/USD"@[0]));
            assert(!crate::identifiers::is_whitespace_char("SIM"@[0]));
            assert(!crate::identifiers::is_whitespace_char("O-19700101-0000-001-001-1"@[0]));
        }
        let trader_id = match TraderId::new("TRADER-001") {
            Ok(id) => id,
            Err(_) => unreached(),
        };
        let strategy_id = match StrategyId::new("S-001") {
            Ok(id) => id,
            Err(_) => unreached(),
        };
        let symbol = match Symbol::new("AUD/USD") {
            Ok(s) => s,
            Err(_) => unreached(),
        };
        let venue = match Venue::new("SIM") {
            Ok(v) => v,
            Err(_) => unreached(),
        };
        let client_order_id = match ClientOrderId::new("O-19700101-0000-001-001-1") {
            Ok(id) => id,
            Err(_) => unreached(),
        };
        match MarketOrder::new(
            trader_id,
            strategy_id,
            InstrumentId::new(symbol, venue),
            client_order_id,
            OrderSide::Buy,
            Quantity::from_raw(100000, 0),
            TimeInForce::Day,
            false,
            false,
            None,
            None,
            None,
            None,
            None,
            None,
            None,
            None,
            UUID4::default(),
            0,
        ) {
            Ok(o) => o,
            Err(_) => unreached(),
        }
    }
}

impl Order for MarketOrder {
    closed spec fn core_model(&self) -> CoreModel {
        self.core@
    }

    closed spec fn price_spec(&self) -> Option<Price> {
        None
    }

    closed spec fn trigger_price_spec(&self) -> Option<Price> {
        None
    }

    closed spec fn trigger_type_spec(&self) -> Option<TriggerType> {
        None
    }

    fn status(&self) -> OrderStatus {
        self.core.status
    }

    fn trader_id(&self) -> TraderId {
        self.core.trader_id
    }

    fn strategy_id(&self) -> StrategyId {
        self.core.strategy_id
    }

    fn instrument_id(&self) -> InstrumentId {
        self.core.instrument_id
    }

    fn client_order_id(&self) -> ClientOrderId {
        self.core.client_order_id
    }

    fn venue_order_id(&self) -> Option<VenueOrderId> {
        self.core.venue_order_id
    }

    fn position_id(&self) -> Option<PositionId> {
        self.core.position_id
    }

    fn account_id(&self) -> Option<AccountId> {
        self.core.account_id
    }

    fn last_trade_id(&self) -> Option<TradeId> {
        self.core.last_trade_id
    }

    fn side(&self) -> OrderSide {
        self.core.side
    }

    fn order_type(&self) -> OrderType {
        self.core.order_type
    }

    fn quantity(&self) -> Quantity {
        self.core.quantity
    }

    fn time_in_force(&self) -> TimeInForce {
        self.core.time_in_force
    }

    fn price(&self) -> Option<Price> {
        None
    }

    fn trigger_price(&self) -> Option<Price> {
        None
    }

    fn trigger_type(&self) -> Option<TriggerType> {
        None
    }

    fn liquidity_side(&self) -> Option<LiquiditySide> {
        self.core.liquidity_side
    }

    fn is_post_only(&self) -> bool {
        self.core.is_post_only
    }

    fn is_reduce_only(&self) -> bool {
        self.core.is_reduce_only
    }

    fn is_quote_quantity(&self) -> bool {
        self.core.is_quote_quantity
    }

    fn emulation_trigger(&self) -> Option<TriggerType> {
        self.core.emulation_trigger
    }

    fn contingency_type(&self) -> Option<ContingencyType> {
        self.core.contingency_type
    }

    fn order_list_id(&self) -> Option<OrderListId> {
        self.core.order_list_id
    }

    fn linked_order_ids(&self) -> Option<Vec<ClientOrderId>> {
        copy_opt_vec(&self.core.linked_order_ids)
    }

    fn parent_order_id(&self) -> Option<ClientOrderId> {
        self.core.parent_order_id
    }

    fn exec_algorithm_id(&self) -> Option<ExecAlgorithmId> {
        self.core.exec_algorithm_id
    }

    fn exec_algorithm_params(&self) -> Option<Vec<(String, String)>> {
        copy_opt_params(&self.core.exec_algorithm_params)
    }

    fn exec_spawn_id(&self) -> Option<ClientOrderId> {
        self.core.exec_spawn_id
    }

    fn tags(&self) -> Option<String> {
        copy_opt_string(&self.core.tags)
    }

    fn filled_qty(&self) -> Quantity {
        self.core.filled_qty
    }

    fn leaves_qty(&self) -> Quantity {
        self.core.leaves_qty
    }

    fn avg_px(&self) -> Option<Price> {
        self.core.avg_px
    }

    fn slippage(&self) -> Option<Price> {
        self.core.slippage
    }

    fn init_id(&self) -> UUID4 {
        self.core.init_id
    }

    fn ts_init(&self) -> UnixNanos {
        self.core.ts_init
    }

    fn ts_last(&self) -> UnixNanos {
        self.core.ts_last
    }

    fn events(&self) -> &Vec<OrderEvent> {
        &self.core.events
    }

    fn venue_order_ids(&self) -> &Vec<VenueOrderId> {
        &self.core.venue_order_ids
    }

    fn trade_ids(&self) -> &Vec<TradeId> {
        &self.core.trade_ids
    }
}

impl PartialEq for MarketOrder {
    fn eq(&self, other: &MarketOrder) -> (r: bool) {
        self.core.client_order_id == other.core.client_order_id
    }
}

impl Eq for MarketOrder {

}

impl vstd::std_specs::cmp::PartialEqSpecImpl for MarketOrder {
    open spec fn obeys_eq_spec() -> bool {
        true
    }

    open spec fn eq_spec(&self, other: &MarketOrder) -> bool {
        self@.client_order_id == other@.client_order_id
    }
}

/// The capability interface speaks of this order through the same model
/// the constructors and event application pin: `core_model()` is the
/// order's view, and a market order's pricing accessors always report
/// absent.
pub proof fn lemma_market_model(o: &MarketOrder)
    ensures
        o.core_model() == o@,
        o.price_spec() is None,
        o.trigger_price_spec() is None,
        o.trigger_type_spec() is None,
{
}

/// Round-trip law: a freshly initialized market order, serialized into an
/// initialization record and rebuilt from it, reproduces its shared state
/// exactly. It does not hold of an order that has moved past
/// initialization (for example after one fill): rebuilding then yields a
/// pristine order again.
pub proof fn lemma_market_round_trip(m: CoreModel)
    requires
        m.wf(),
        m.is_pristine(),
        market_invariant(m),
    ensures
        market_core_of_init(init_of_market(m)) == m,
{
    assert(market_core_of_init(init_of_market(m)) =~= m);
}

/// Identity law: two market orders are equal exactly when their client
/// order ids hold the same identifier string; no other field enters the
/// comparison.
pub proof fn lemma_market_eq_iff_client_order_id(a: MarketOrder, b: MarketOrder)
    ensures
        vstd::std_specs::cmp::PartialEqSpec::eq_spec(&a, &b) <==> a@.client_order_id
            == b@.client_order_id,
{
}

} // verus!
