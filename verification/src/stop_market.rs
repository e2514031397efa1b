//! The stop-market order variant: rests until its trigger price condition
//! fires, then executes as a market order. It carries a mandatory trigger
//! price and trigger type; its limit-price accessor always reports absent.

use vstd::prelude::*;
use vstd::pervasive::unreached;

use crate::base::Order;
use crate::copies::{copy_opt_params, copy_opt_string, copy_opt_vec};
use crate::enums::{
    ContingencyType, LiquiditySide, OrderSide, OrderStatus, OrderType, TimeInForce, TriggerType,
};
use crate::errors::{OrderError, ValidationError};
use crate::events::{InitModel, OrderEvent, OrderInitialized, UnixNanos};
use crate::identifiers::{
    AccountId, ClientOrderId, ExecAlgorithmId, InstrumentId, OrderListId, PositionId, StrategyId,
    Symbol, TradeId, TraderId, Venue, VenueOrderId, UUID4,
};
use crate::order_core::{
    initial_core_model, opt_chars, opt_id_seq, opt_param_keys_unique, opt_param_seq,
    opt_str_chars, rejection, step, CoreModel, OrderCore,
};
use crate::types::{Price, Quantity};

verus! {

/// An order that rests until its trigger fires. Owns the shared state
/// plus the trigger fields unique to stop variants.
pub struct StopMarketOrder {
    core: OrderCore,
    /// Price whose crossing fires the trigger.
    pub trigger_price: Price,
    /// Price source watched for the trigger.
    pub trigger_type: TriggerType,
    /// Expiry timestamp, for orders in force until a date.
    pub expire_time: Option<UnixNanos>,
    /// Quantity displayed to the venue, for iceberg orders.
    pub display_qty: Option<Quantity>,
    /// Whether the trigger has fired.
    pub is_triggered: bool,
    /// When the trigger fired, if it has.
    pub ts_triggered: Option<UnixNanos>,
}

/// The mathematical model of a [`StopMarketOrder`]: the shared state
/// model plus the variant fields.
#[verifier::ext_equal]
pub ghost struct StopModel {
    /// Model of the shared state.
    pub core: CoreModel,
    /// Price whose crossing fires the trigger.
    pub trigger_price: Price,
    /// Price source watched for the trigger.
    pub trigger_type: TriggerType,
    /// Expiry timestamp.
    pub expire_time: Option<UnixNanos>,
    /// Displayed quantity.
    pub display_qty: Option<Quantity>,
    /// Whether the trigger has fired.
    pub is_triggered: bool,
    /// When the trigger fired, if it has.
    pub ts_triggered: Option<UnixNanos>,
}

impl View for StopMarketOrder {
    type V = StopModel;

    closed spec fn view(&self) -> StopModel {
        StopModel {
            core: self.core@,
            trigger_price: self.trigger_price,
            trigger_type: self.trigger_type,
            expire_time: self.expire_time,
            display_qty: self.display_qty,
            is_triggered: self.is_triggered,
            ts_triggered: self.ts_triggered,
        }
    }
}

/// What holds of the shared state of every stop-market order: the
/// stop-market order type.
pub open spec fn stop_market_invariant(s: StopModel) -> bool {
    s.core.order_type == OrderType::StopMarket
}

/// The model after one lifecycle event: the shared state advances by
/// [`step`]; a trigger event additionally sets the triggered flag and
/// records when it fired.
pub open spec fn stop_step(s: StopModel, e: OrderEvent) -> StopModel {
    StopModel {
        core: step(s.core, e),
        is_triggered: s.is_triggered || e matches OrderEvent::Triggered { .. },
        ts_triggered: if e matches OrderEvent::Triggered { .. } {
            Some(e.ts_event_spec())
        } else {
            s.ts_triggered
        },
        ..s
    }
}

/// The initialization record a stop-market order serializes itself into:
/// the trigger fields present, the limit-price and trailing fields
/// absent, and the reconciliation mark clear.
pub open spec fn init_of_stop_market(s: StopModel) -> InitModel {
    InitModel {
        trader_id: s.core.trader_id,
        strategy_id: s.core.strategy_id,
        instrument_id: s.core.instrument_id,
        client_order_id: s.core.client_order_id,
        order_side: s.core.side,
        order_type: s.core.order_type,
        quantity: s.core.quantity,
        price: None,
        trigger_price: Some(s.trigger_price),
        trigger_type: Some(s.trigger_type),
        time_in_force: s.core.time_in_force,
        expire_time: s.expire_time,
        post_only: s.core.is_post_only,
        reduce_only: s.core.is_reduce_only,
        quote_quantity: s.core.is_quote_quantity,
        display_qty: s.display_qty,
        limit_offset: None,
        trailing_offset: None,
        trailing_offset_type: None,
        emulation_trigger: s.core.emulation_trigger,
        contingency_type: s.core.contingency_type,
        order_list_id: s.core.order_list_id,
        linked_order_ids: s.core.linked_order_ids,
        parent_order_id: s.core.parent_order_id,
        exec_algorithm_id: s.core.exec_algorithm_id,
        exec_algorithm_params: s.core.exec_algorithm_params,
        exec_spawn_id: s.core.exec_spawn_id,
        tags: s.core.tags,
        event_id: s.core.init_id,
        ts_event: s.core.ts_init,
        ts_init: s.core.ts_init,
        reconciliation: false,
    }
}

/// The model a stop-market order built from an initialization record
/// holds, given the trigger fields the record must carry: the record's
/// shared fields mapped across, the stop-market order type, and the
/// trigger not yet fired.
pub open spec fn stop_market_of_init(e: InitModel, tp: Price, tt: TriggerType) -> StopModel {
    StopModel {
        core: initial_core_model(
            e.trader_id,
            e.strategy_id,
            e.instrument_id,
            e.client_order_id,
            e.order_side,
            OrderType::StopMarket,
            e.quantity,
            e.time_in_force,
            e.post_only,
            e.reduce_only,
            e.quote_quantity,
            e.emulation_trigger,
            e.contingency_type,
            e.order_list_id,
            e.linked_order_ids,
            e.parent_order_id,
            e.exec_algorithm_id,
            e.exec_algorithm_params,
            e.exec_spawn_id,
            e.tags,
            e.event_id,
            e.ts_event,
        ),
        trigger_price: tp,
        trigger_type: tt,
        expire_time: e.expire_time,
        display_qty: e.display_qty,
        is_triggered: false,
        ts_triggered: None,
    }
}

impl StopMarketOrder {
    /// Builds a stop-market order. Fails when the quantity is not
    /// positive or the execution-algorithm parameter keys are not unique.
    pub fn new(
        trader_id: TraderId,
        strategy_id: StrategyId,
        instrument_id: InstrumentId,
        client_order_id: ClientOrderId,
        order_side: OrderSide,
        quantity: Quantity,
        trigger_price: Price,
        trigger_type: TriggerType,
        time_in_force: TimeInForce,
        expire_time: Option<UnixNanos>,
        post_only: bool,
        reduce_only: bool,
        quote_quantity: bool,
        display_qty: Option<Quantity>,
        emulation_trigger: Option<TriggerType>,
        contingency_type: Option<ContingencyType>,
        order_list_id: Option<OrderListId>,
        linked_order_ids: Option<Vec<ClientOrderId>>,
        parent_order_id: Option<ClientOrderId>,
        exec_algorithm_id: Option<ExecAlgorithmId>,
        exec_algorithm_params: Option<Vec<(String, String)>>,
        exec_spawn_id: Option<ClientOrderId>,
        tags: Option<String>,
        init_id: UUID4,
        ts_init: UnixNanos,
    ) -> (r: Result<StopMarketOrder, ValidationError>)
        ensures
            r is Ok <==> quantity.raw > 0 && opt_param_keys_unique(
                opt_param_seq(exec_algorithm_params),
            ),
            quantity.raw == 0 ==> r == Err::<StopMarketOrder, ValidationError>(
                ValidationError::NonPositiveQuantity,
            ),
            quantity.raw > 0 && !opt_param_keys_unique(opt_param_seq(exec_algorithm_params)) ==> r
                == Err::<StopMarketOrder, ValidationError>(ValidationError::DuplicateExecParam),
            r matches Ok(o) ==> o@ == (StopModel {
                core: initial_core_model(
                    trader_id@,
                    strategy_id@,
                    instrument_id@,
                    client_order_id@,
                    order_side,
                    OrderType::StopMarket,
                    quantity,
                    time_in_force,
                    post_only,
                    reduce_only,
                    quote_quantity,
                    emulation_trigger,
                    contingency_type,
                    opt_chars(order_list_id),
                    opt_id_seq(linked_order_ids),
                    opt_chars(parent_order_id),
                    opt_chars(exec_algorithm_id),
                    opt_param_seq(exec_algorithm_params),
                    opt_chars(exec_spawn_id),
                    opt_str_chars(tags),
                    init_id,
                    ts_init,
                ),
                trigger_price,
                trigger_type,
                expire_time,
                display_qty,
                is_triggered: false,
                ts_triggered: None,
            }),
            r matches Ok(o) ==> o@.core.wf() && o@.core.is_pristine() && stop_market_invariant(
                o@,
            ) && !o@.is_triggered,
    {
        match OrderCore::new(
            trader_id,
            strategy_id,
            instrument_id,
            client_order_id,
            order_side,
            OrderType::StopMarket,
            quantity,
            time_in_force,
            post_only,
            reduce_only,
            quote_quantity,
            emulation_trigger,
            contingency_type,
            order_list_id,
            linked_order_ids,
            parent_order_id,
            exec_algorithm_id,
            exec_algorithm_params,
            exec_spawn_id,
            tags,
            init_id,
            ts_init,
        ) {
            Ok(core) => Ok(
                StopMarketOrder {
                    core,
                    trigger_price,
                    trigger_type,
                    expire_time,
                    display_qty,
                    is_triggered: false,
                    ts_triggered: None,
                },
            ),
            Err(e) => Err(e),
        }
    }

    /// Applies one lifecycle event. The shared state advances exactly as
    /// [`OrderCore::apply`] describes; an accepted trigger event
    /// additionally sets the triggered flag and records its timestamp.
    pub fn apply(&mut self, event: OrderEvent) -> (r: Result<(), OrderError>)
        requires
            old(self)@.core.wf(),
        ensures
            final(self)@.core.wf(),
            r is Ok <==> rejection(old(self)@.core, event) is None,
            r is Ok ==> final(self)@ == stop_step(old(self)@, event),
            r matches Err(err) ==> final(self)@ == old(self)@ && rejection(
                old(self)@.core,
                event,
            ) == Some(err),
            final(self)@.core.filled_qty.raw >= old(self)@.core.filled_qty.raw,
            final(self)@.core.ts_last >= old(self)@.core.ts_last,
    {
        let is_trigger = match &event {
            OrderEvent::Triggered { .. } => true,
            _ => false,
        };
        let ts = event.ts_event();
        match self.core.apply(event) {
            Ok(()) => {
                if is_trigger {
                    self.is_triggered = true;
                    self.ts_triggered = Some(ts);
                }
                Ok(())
            },
            Err(e) => Err(e),
        }
    }

    /// Builds a stop-market order from an initialization record, exactly
    /// as [`stop_market_of_init`] describes. A record without a trigger
    /// price or trigger type breaks the producer's contract for this
    /// variant: construction aborts with the error naming the missing
    /// field. A non-positive quantity or duplicate parameter keys abort
    /// with the wrapped validation error.
    pub fn from_initialized(event: OrderInitialized) -> (r: Result<StopMarketOrder, OrderError>)
        ensures
            r is Ok <==> event.trigger_price is Some && event.trigger_type is Some
                && event.quantity.raw > 0 && opt_param_keys_unique(event@.exec_algorithm_params),
            event.trigger_price is None ==> r == Err::<StopMarketOrder, OrderError>(
                OrderError::MissingTriggerPrice,
            ),
            event.trigger_price is Some && event.trigger_type is None ==> r == Err::<
                StopMarketOrder,
                OrderError,
            >(OrderError::MissingTriggerType),
            event.trigger_price is Some && event.trigger_type is Some && event.quantity.raw == 0
                ==> r == Err::<StopMarketOrder, OrderError>(
                OrderError::Validation(ValidationError::NonPositiveQuantity),
            ),
            event.trigger_price is Some && event.trigger_type is Some && event.quantity.raw > 0
                && !opt_param_keys_unique(event@.exec_algorithm_params) ==> r == Err::<
                StopMarketOrder,
                OrderError,
            >(OrderError::Validation(ValidationError::DuplicateExecParam)),
            r matches Ok(o) ==> o@ == stop_market_of_init(
                event@,
                event.trigger_price.unwrap(),
                event.trigger_type.unwrap(),
            ),
            r matches Ok(o) ==> o@.core.wf() && o@.core.is_pristine() && stop_market_invariant(
                o@,
            ) && !o@.is_triggered,
    {
        let trigger_price = match event.trigger_price {
            Some(tp) => tp,
            None => {
                return Err(OrderError::MissingTriggerPrice);
            },
        };
        let trigger_type = match event.trigger_type {
            Some(tt) => tt,
            None => {
                return Err(OrderError::MissingTriggerType);
            },
        };
        match StopMarketOrder::new(
            event.trader_id,
            event.strategy_id,
            event.instrument_id,
            event.client_order_id,
            event.order_side,
            event.quantity,
            trigger_price,
            trigger_type,
            event.time_in_force,
            event.expire_time,
            event.post_only,
            event.reduce_only,
            event.quote_quantity,
            event.display_qty,
            event.emulation_trigger,
            event.contingency_type,
            event.order_list_id,
            event.linked_order_ids,
            event.parent_order_id,
            event.exec_algorithm_id,
            event.exec_algorithm_params,
            event.exec_spawn_id,
            event.tags,
            event.event_id,
            event.ts_event,
        ) {
            Ok(o) => Ok(o),
            Err(e) => Err(OrderError::Validation(e)),
        }
    }

    /// Serializes the order back into an initialization record, exactly
    /// as [`init_of_stop_market`] describes: the trigger fields present,
    /// fields without meaning to a stop-market order absent, and the
    /// reconciliation mark clear.
    pub fn to_initialized(&self) -> (r: OrderInitialized)
        ensures
            r@ == init_of_stop_market(self@),
    {
        let r = OrderInitialized {
            trader_id: self.core.trader_id,
            strategy_id: self.core.strategy_id,
            instrument_id: self.core.instrument_id,
            client_order_id: self.core.client_order_id,
            order_side: self.core.side,
            order_type: self.core.order_type,
            quantity: self.core.quantity,
            price: None,
            trigger_price: Some(self.trigger_price),
            trigger_type: Some(self.trigger_type),
            time_in_force: self.core.time_in_force,
            expire_time: self.expire_time,
            post_only: self.core.is_post_only,
            reduce_only: self.core.is_reduce_only,
            quote_quantity: self.core.is_quote_quantity,
            display_qty: self.display_qty,
            limit_offset: None,
            trailing_offset: None,
            trailing_offset_type: None,
            emulation_trigger: self.core.emulation_trigger,
            contingency_type: self.core.contingency_type,
            order_list_id: self.core.order_list_id,
            linked_order_ids: copy_opt_vec(&self.core.linked_order_ids),
            parent_order_id: self.core.parent_order_id,
            exec_algorithm_id: self.core.exec_algorithm_id,
            exec_algorithm_params: copy_opt_params(&self.core.exec_algorithm_params),
            exec_spawn_id: self.core.exec_spawn_id,
            tags: copy_opt_string(&self.core.tags),
            event_id: self.core.init_id,
            ts_event: self.core.ts_init,
            ts_init: self.core.ts_init,
            reconciliation: false,
        };
        proof {
            assert(r@ =~= init_of_stop_market(self@));
        }
        r
    }

    /// Whether the trigger has fired.
    pub fn is_triggered(&self) -> (r: bool)
        ensures
            r == self@.is_triggered,
    {
        self.is_triggered
    }

    /// When the trigger fired, if it has.
    pub fn ts_triggered(&self) -> (r: Option<UnixNanos>)
        ensures
            r == self@.ts_triggered,
    {
        self.ts_triggered
    }

    /// Expiry timestamp, for orders in force until a date.
    pub fn expire_time(&self) -> (r: Option<UnixNanos>)
        ensures
            r == self@.expire_time,
    {
        self.expire_time
    }

    /// Quantity displayed to the venue, for iceberg orders.
    pub fn display_qty(&self) -> (r: Option<Quantity>)
        ensures
            r == self@.display_qty,
    {
        self.display_qty
    }
}

/// A stop-market order for testing: buy 100,000 units at precision 0 with
/// trigger price 1.00000 at precision 5 on the bid/ask source, in force
/// until canceled, with placeholder identifiers and timestamp zero.
impl Default for StopMarketOrder {
    fn default() -> (r: StopMarketOrder)
        ensures
            r@.core.wf(),
            r@.core.is_pristine(),
            stop_market_invariant(r@),
            r@.core.quantity == (Quantity { raw: 100000, precision: 0 }),
            r@.core.side == OrderSide::Buy,
            r@.trigger_price == (Price { raw: 100000, precision: 5 }),
            r@.trigger_type == TriggerType::BidAsk,
            r@.core.time_in_force == TimeInForce::Gtc,
            !r@.is_triggered,
    {
        proof {
            reveal_strlit("TRADER-001");
            reveal_strlit("S-001");
            reveal_strlit("AUD/USD");
            reveal_strlit("SIM");
            reveal_strlit("O-19700101-0000-001-001-1");
            assert(!crate::identifiers::is_whitespace_char("TRADER-001"@[0]));
            assert(!crate::identifiers::is_whitespace_char("S-001"@[0]));
            assert(!crate::identifiers::is_whitespace_char("AUD/USD"@[0]));
            assert(!crate::identifiers::is_whitespace_char("SIM"@[0]));
            assert(!crate::identifiers::is_whitespace_char("O-19700101-0000-001-001-1"@[0]));
        }
        let trader_id = match TraderId::new("TRADER-001") {
            Ok(id) => id,
            Err(_) => unreached(),
        };
        let strategy_id = match StrategyId::new("S-001") {
            Ok(id) => id,
            Err(_) => unreached(),
        };
        let symbol = match Symbol::new("AUD/USD") {
            Ok(s) => s,
            Err(_) => unreached(),
        };
        let venue = match Venue::new("SIM") {
            Ok(v) => v,
            Err(_) => unreached(),
        };
        let client_order_id = match ClientOrderId::new("O-19700101-0000-001-001-1") {
            Ok(id) => id,
            Err(_) => unreached(),
        };
        match StopMarketOrder::new(
            trader_id,
            strategy_id,
            InstrumentId::new(symbol, venue),
            client_order_id,
            OrderSide::Buy,
            Quantity::from_raw(100000, 0),
            Price::from_raw(100000, 5),
            TriggerType::BidAsk,
            TimeInForce::Gtc,
            None,
            false,
            false,
            false,
            None,
            None,
            None,
            None,
            None,
            None,
            None,
            None,
            None,
            None,
            UUID4::default(),
            0,
        ) {
            Ok(o) => o,
            Err(_) => unreached(),
        }
    }
}

impl Order for StopMarketOrder {
    closed spec fn core_model(&self) -> CoreModel {
        self.core@
    }

    closed spec fn price_spec(&self) -> Option<Price> {
        None
    }

    closed spec fn trigger_price_spec(&self) -> Option<Price> {
        Some(self.trigger_price)
    }

    closed spec fn trigger_type_spec(&self) -> Option<TriggerType> {
        Some(self.trigger_type)
    }

    fn status(&self) -> OrderStatus {
        self.core.status
    }

    fn trader_id(&self) -> TraderId {
        self.core.trader_id
    }

    fn strategy_id(&self) -> StrategyId {
        self.core.strategy_id
    }

    fn instrument_id(&self) -> InstrumentId {
        self.core.instrument_id
    }

    fn client_order_id(&self) -> ClientOrderId {
        self.core.client_order_id
    }

    fn venue_order_id(&self) -> Option<VenueOrderId> {
        self.core.venue_order_id
    }

    fn position_id(&self) -> Option<PositionId> {
        self.core.position_id
    }

    fn account_id(&self) -> Option<AccountId> {
        self.core.account_id
    }

    fn last_trade_id(&self) -> Option<TradeId> {
        self.core.last_trade_id
    }

    fn side(&self) -> OrderSide {
        self.core.side
    }

    fn order_type(&self) -> OrderType {
        self.core.order_type
    }

    fn quantity(&self) -> Quantity {
        self.core.quantity
    }

    fn time_in_force(&self) -> TimeInForce {
        self.core.time_in_force
    }

    fn price(&self) -> Option<Price> {
        None
    }

    fn trigger_price(&self) -> Option<Price> {
        Some(self.trigger_price)
    }

    fn trigger_type(&self) -> Option<TriggerType> {
        Some(self.trigger_type)
    }

    fn liquidity_side(&self) -> Option<LiquiditySide> {
        self.core.liquidity_side
    }

    fn is_post_only(&self) -> bool {
        self.core.is_post_only
    }

    fn is_reduce_only(&self) -> bool {
        self.core.is_reduce_only
    }

    fn is_quote_quantity(&self) -> bool {
        self.core.is_quote_quantity
    }

    fn emulation_trigger(&self) -> Option<TriggerType> {
        self.core.emulation_trigger
    }

    fn contingency_type(&self) -> Option<ContingencyType> {
        self.core.contingency_type
    }

    fn order_list_id(&self) -> Option<OrderListId> {
        self.core.order_list_id
    }

    fn linked_order_ids(&self) -> Option<Vec<ClientOrderId>> {
        copy_opt_vec(&self.core.linked_order_ids)
    }

    fn parent_order_id(&self) -> Option<ClientOrderId> {
        self.core.parent_order_id
    }

    fn exec_algorithm_id(&self) -> Option<ExecAlgorithmId> {
        self.core.exec_algorithm_id
    }

    fn exec_algorithm_params(&self) -> Option<Vec<(String, String)>> {
        copy_opt_params(&self.core.exec_algorithm_params)
    }

    fn exec_spawn_id(&self) -> Option<ClientOrderId> {
        self.core.exec_spawn_id
    }

    fn tags(&self) -> Option<String> {
        copy_opt_string(&self.core.tags)
    }

    fn filled_qty(&self) -> Quantity {
        self.core.filled_qty
    }

    fn leaves_qty(&self) -> Quantity {
        self.core.leaves_qty
    }

    fn avg_px(&self) -> Option<Price> {
        self.core.avg_px
    }

    fn slippage(&self) -> Option<Price> {
        self.core.slippage
    }

    fn init_id(&self) -> UUID4 {
        self.core.init_id
    }

    fn ts_init(&self) -> UnixNanos {
        self.core.ts_init
    }

    fn ts_last(&self) -> UnixNanos {
        self.core.ts_last
    }

    fn events(&self) -> &Vec<OrderEvent> {
        &self.core.events
    }

    fn venue_order_ids(&self) -> &Vec<VenueOrderId> {
        &self.core.venue_order_ids
    }

    fn trade_ids(&self) -> &Vec<TradeId> {
        &self.core.trade_ids
    }
}

impl PartialEq for StopMarketOrder {
    fn eq(&self, other: &StopMarketOrder) -> (r: bool) {
        self.core.client_order_id == other.core.client_order_id
    }
}

impl Eq for StopMarketOrder {

}

impl vstd::std_specs::cmp::PartialEqSpecImpl for StopMarketOrder {
    open spec fn obeys_eq_spec() -> bool {
        true
    }

    open spec fn eq_spec(&self, other: &StopMarketOrder) -> bool {
        self@.core.client_order_id == other@.core.client_order_id
    }
}

/// The capability interface speaks of this order through the same model
/// the constructors and event application pin: `core_model()` is the
/// shared part of the order's view, and a stop-market order reports no
/// limit price but always its trigger price and type.
pub proof fn lemma_stop_market_model(o: &StopMarketOrder)
    ensures
        o.core_model() == o@.core,
        o.price_spec() is None,
        o.trigger_price_spec() == Some(o@.trigger_price),
        o.trigger_type_spec() == Some(o@.trigger_type),
{
}

/// Round-trip law: a freshly initialized stop-market order, serialized
/// into an initialization record and rebuilt from it, reproduces its
/// state exactly — variant fields included. It does not hold of an order
/// that has moved past initialization (for example after its trigger has
/// fired): rebuilding then yields a pristine, untriggered order again.
pub proof fn lemma_stop_market_round_trip(s: StopModel)
    requires
        s.core.wf(),
        s.core.is_pristine(),
        stop_market_invariant(s),
        !s.is_triggered,
        s.ts_triggered is None,
    ensures
        stop_market_of_init(init_of_stop_market(s), s.trigger_price, s.trigger_type) == s,
{
    assert(stop_market_of_init(init_of_stop_market(s), s.trigger_price, s.trigger_type) =~= s);
}

/// Identity law: two stop-market orders are equal exactly when their
/// client order ids hold the same identifier string, whatever their
/// trigger prices, trigger types or other variant fields.
pub proof fn lemma_stop_market_eq_iff_client_order_id(a: StopMarketOrder, b: StopMarketOrder)
    ensures
        vstd::std_specs::cmp::PartialEqSpec::eq_spec(&a, &b) <==> a@.core.client_order_id
            == b@.core.client_order_id,
{
}

} // verus!
