use order_model::base::Order;
use order_model::enums::{LiquiditySide, OrderSide, OrderStatus, OrderType, TimeInForce, TriggerType};
use order_model::errors::{OrderError, ValidationError};
use order_model::events::{OrderEvent, OrderInitialized};
use order_model::identifiers::{
    AccountId, ClientOrderId, InstrumentId, StrategyId, TradeId, TraderId, VenueOrderId, UUID4,
};
use order_model::market::MarketOrder;
use order_model::stop_market::StopMarketOrder;
use order_model::types::{Price, Quantity};

fn market_order(client_order_id: &str, quantity: Quantity) -> MarketOrder {
    MarketOrder::new(
        TraderId::new("TRADER-001").unwrap(),
        StrategyId::new("S-001").unwrap(),
        InstrumentId::from_str("AUD/USD.SIM").unwrap(),
        ClientOrderId::new(client_order_id).unwrap(),
        OrderSide::Buy,
        quantity,
        TimeInForce::Day,
        false,
        false,
        None,
        None,
        None,
        None,
        None,
        None,
        None,
        None,
        UUID4::new(7),
        0,
    )
    .unwrap()
}

fn stop_market_order(client_order_id: &str, trigger_price: Price) -> StopMarketOrder {
    StopMarketOrder::new(
        TraderId::new("TRADER-001").unwrap(),
        StrategyId::new("S-001").unwrap(),
        InstrumentId::from_str("AUD/USD.SIM").unwrap(),
        ClientOrderId::new(client_order_id).unwrap(),
        OrderSide::Buy,
        Quantity::from_int(100_000, 0).unwrap(),
        trigger_price,
        TriggerType::BidAsk,
        TimeInForce::Gtc,
        None,
        false,
        false,
        false,
        None,
        None,
        None,
        None,
        None,
        None,
        None,
        None,
        None,
        None,
        UUID4::new(9),
        0,
    )
    .unwrap()
}

#[test]
fn test_market_order_initial_state() {
    let order = market_order("O-1", Quantity::from_int(100_000, 0).unwrap());
    assert_eq!(order.status(), OrderStatus::Initialized);
    assert_eq!(order.quantity(), Quantity::from_raw(100_000, 0));
    assert_eq!(order.leaves_qty(), order.quantity());
    assert_eq!(order.filled_qty(), Quantity::from_raw(0, 0));
    assert_eq!(order.price(), None);
    assert_eq!(order.trigger_price(), None);
    assert_eq!(order.trigger_type(), None);
    assert_eq!(order.leaves_qty().raw, 100_000);
    assert_eq!(order.order_type(), OrderType::Market);
    assert!(!order.is_post_only());
    assert_eq!(order.ts_last(), order.ts_init());
    assert!(order.events().is_empty());
}

#[test]
fn test_market_order_rejects_zero_quantity() {
    let r = MarketOrder::new(
        TraderId::new("TRADER-001").unwrap(),
        StrategyId::new("S-001").unwrap(),
        InstrumentId::from_str("AUD/USD.SIM").unwrap(),
        ClientOrderId::new("O-1").unwrap(),
        OrderSide::Buy,
        Quantity::from_raw(0, 0),
        TimeInForce::Day,
        false,
        false,
        None,
        None,
        None,
        None,
        None,
        None,
        None,
        None,
        UUID4::new(7),
        0,
    );
    assert!(matches!(r, Err(ValidationError::NonPositiveQuantity)));
}

#[test]
fn test_duplicate_exec_params_rejected() {
    let params = vec![
        ("interval".to_owned(), "1s".to_owned()),
        ("interval".to_owned(), "2s".to_owned()),
    ];
    let r = MarketOrder::new(
        TraderId::new("TRADER-001").unwrap(),
        StrategyId::new("S-001").unwrap(),
        InstrumentId::from_str("AUD/USD.SIM").unwrap(),
        ClientOrderId::new("O-1").unwrap(),
        OrderSide::Buy,
        Quantity::from_int(1, 0).unwrap(),
        TimeInForce::Day,
        false,
        false,
        None,
        None,
        None,
        None,
        None,
        Some(params),
        None,
        None,
        UUID4::new(7),
        0,
    );
    assert!(matches!(r, Err(ValidationError::DuplicateExecParam)));
}

#[test]
fn test_stop_market_order_initial_state() {
    let trigger = Price::from_int(1, 5).unwrap();
    let order = stop_market_order("O-2", trigger);
    assert_eq!(order.trigger_price(), Some(Price::from_raw(100_000, 5)));
    assert_eq!(order.trigger_type(), Some(TriggerType::BidAsk));
    assert_eq!(order.time_in_force(), TimeInForce::Gtc);
    assert!(!order.is_triggered());
    assert_eq!(order.price(), None);
    assert_eq!(order.leaves_qty().raw, 100_000);
    assert_eq!(order.order_type(), OrderType::StopMarket);
}

#[test]
fn test_stop_market_missing_trigger_price_fails() {
    let order = market_order("O-3", Quantity::from_int(100_000, 0).unwrap());
    let event = order.to_initialized();
    let r = StopMarketOrder::from_initialized(event);
    match r {
        Err(e) => {
            assert_eq!(e, OrderError::MissingTriggerPrice);
            let msg = e.message();
            assert!(msg.contains("trigger_price"));
            assert!(msg.contains("StopMarketOrder"));
            assert_eq!(msg, "`trigger_price` was `None` for `StopMarketOrder`");
        }
        Ok(_) => panic!("construction must fail without a trigger price"),
    }
}

#[test]
fn test_stop_market_missing_trigger_type_fails() {
    let order = stop_market_order("O-4", Price::from_int(1, 5).unwrap());
    let mut event = order.to_initialized();
    event.trigger_type = None;
    let r = StopMarketOrder::from_initialized(event);
    assert!(matches!(r, Err(OrderError::MissingTriggerType)));
}

#[test]
fn test_market_round_trip() {
    let order = market_order("O-5", Quantity::from_int(250, 2).unwrap());
    let event = order.to_initialized();
    assert_eq!(event.price, None);
    assert_eq!(event.trigger_price, None);
    assert!(!event.reconciliation);
    let rebuilt = MarketOrder::from_initialized(event).unwrap();
    assert!(rebuilt == order);
    assert_eq!(rebuilt.status(), order.status());
    assert_eq!(rebuilt.quantity(), order.quantity());
    assert_eq!(rebuilt.leaves_qty(), order.leaves_qty());
    assert_eq!(rebuilt.filled_qty(), order.filled_qty());
    assert_eq!(rebuilt.side(), order.side());
    assert_eq!(rebuilt.time_in_force(), order.time_in_force());
    assert_eq!(rebuilt.ts_init(), order.ts_init());
    assert_eq!(rebuilt.init_id(), order.init_id());
    assert_eq!(rebuilt.trader_id().to_string(), order.trader_id().to_string());
    assert_eq!(rebuilt.tags(), order.tags());
}

#[test]
fn test_stop_market_round_trip() {
    let order = stop_market_order("O-6", Price::from_int(2, 4).unwrap());
    let event = order.to_initialized();
    assert_eq!(event.trigger_price, Some(Price::from_raw(20_000, 4)));
    assert_eq!(event.trigger_type, Some(TriggerType::BidAsk));
    let rebuilt = StopMarketOrder::from_initialized(event).unwrap();
    assert!(rebuilt == order);
    assert_eq!(rebuilt.trigger_price(), order.trigger_price());
    assert_eq!(rebuilt.trigger_type(), order.trigger_type());
    assert_eq!(rebuilt.expire_time(), order.expire_time());
    assert_eq!(rebuilt.display_qty(), order.display_qty());
    assert_eq!(rebuilt.is_triggered(), order.is_triggered());
    assert_eq!(rebuilt.status(), order.status());
    assert_eq!(rebuilt.quantity(), order.quantity());
}

#[test]
fn test_equality_by_client_order_id_only() {
    let a = stop_market_order("O-7", Price::from_int(1, 5).unwrap());
    let b = stop_market_order("O-7", Price::from_int(3, 5).unwrap());
    let c = stop_market_order("O-8", Price::from_int(1, 5).unwrap());
    assert!(a == b);
    assert!(a != c);
    let ma = market_order("O-7", Quantity::from_int(1, 0).unwrap());
    let mb = market_order("O-7", Quantity::from_int(2, 0).unwrap());
    assert!(ma == mb);
}

fn submit_accept(order: &mut MarketOrder) {
    order
        .apply(OrderEvent::Submitted { event_id: UUID4::new(1), ts_event: 10 })
        .unwrap();
    order
        .apply(OrderEvent::Accepted {
            event_id: UUID4::new(2),
            venue_order_id: VenueOrderId::new("V-1").unwrap(),
            account_id: AccountId::new("SIM-001").unwrap(),
            ts_event: 20,
        })
        .unwrap();
}

#[test]
fn test_lifecycle_fill_accounting() {
    let mut order = market_order("O-9", Quantity::from_int(100_000, 0).unwrap());
    submit_accept(&mut order);
    assert_eq!(order.status(), OrderStatus::Accepted);
    assert_eq!(
        order.venue_order_id().map(|v| v.to_string()),
        Some("V-1".to_owned())
    );
    assert_eq!(
        order.account_id().map(|a| a.to_string()),
        Some("SIM-001".to_owned())
    );

    order
        .apply(OrderEvent::Filled {
            event_id: UUID4::new(3),
            trade_id: TradeId::new("T-1").unwrap(),
            position_id: None,
            last_qty: Quantity::from_raw(40_000, 0),
            last_px: Price::from_raw(100, 1),
            liquidity_side: LiquiditySide::Taker,
            ts_event: 30,
        })
        .unwrap();
    assert_eq!(order.status(), OrderStatus::PartiallyFilled);
    assert_eq!(order.filled_qty().raw, 40_000);
    assert_eq!(order.leaves_qty().raw, 60_000);
    assert_eq!(order.filled_qty().raw + order.leaves_qty().raw, order.quantity().raw);
    assert_eq!(order.avg_px(), Some(Price::from_raw(100, 1)));
    assert_eq!(order.liquidity_side(), Some(LiquiditySide::Taker));
    assert!(order.ts_last() >= order.ts_init());

    order
        .apply(OrderEvent::Filled {
            event_id: UUID4::new(4),
            trade_id: TradeId::new("T-2").unwrap(),
            position_id: None,
            last_qty: Quantity::from_raw(60_000, 0),
            last_px: Price::from_raw(110, 1),
            liquidity_side: LiquiditySide::Maker,
            ts_event: 40,
        })
        .unwrap();
    assert_eq!(order.status(), OrderStatus::Filled);
    assert_eq!(order.filled_qty().raw, 100_000);
    assert_eq!(order.leaves_qty().raw, 0);
    // volume = 40_000 * 100 + 60_000 * 110 = 10_600_000; average = 106
    assert_eq!(order.avg_px(), Some(Price::from_raw(106, 1)));
    assert_eq!(order.events().len(), 4);
    assert_eq!(order.trade_ids().len(), 2);
    assert_eq!(order.venue_order_ids().len(), 1);
    assert_eq!(order.last_trade_id().map(|t| t.to_string()), Some("T-2".to_owned()));
    assert_eq!(order.ts_last(), 40);
}

#[test]
fn test_terminal_status_rejects_events() {
    let mut order = market_order("O-10", Quantity::from_int(1, 0).unwrap());
    submit_accept(&mut order);
    order
        .apply(OrderEvent::Canceled { event_id: UUID4::new(5), ts_event: 30 })
        .unwrap();
    assert_eq!(order.status(), OrderStatus::Canceled);
    let r = order.apply(OrderEvent::Submitted { event_id: UUID4::new(6), ts_event: 40 });
    assert_eq!(r, Err(OrderError::InvalidStatusTransition));
    assert_eq!(order.status(), OrderStatus::Canceled);
    assert_eq!(order.events().len(), 3);
}

#[test]
fn test_stale_event_rejected() {
    let mut order = market_order("O-11", Quantity::from_int(1, 0).unwrap());
    submit_accept(&mut order);
    let r = order.apply(OrderEvent::Canceled { event_id: UUID4::new(5), ts_event: 5 });
    assert_eq!(r, Err(OrderError::StaleEventTimestamp));
    assert_eq!(order.status(), OrderStatus::Accepted);
}

#[test]
fn test_fill_exceeding_leaves_rejected() {
    let mut order = market_order("O-12", Quantity::from_int(10, 0).unwrap());
    submit_accept(&mut order);
    let r = order.apply(OrderEvent::Filled {
        event_id: UUID4::new(3),
        trade_id: TradeId::new("T-1").unwrap(),
        position_id: None,
        last_qty: Quantity::from_raw(11, 0),
        last_px: Price::from_raw(100, 1),
        liquidity_side: LiquiditySide::Taker,
        ts_event: 30,
    });
    assert_eq!(r, Err(OrderError::FillExceedsLeaves));
    assert_eq!(order.filled_qty().raw, 0);
}

#[test]
fn test_fill_precision_mismatch_rejected() {
    let mut order = market_order("O-13", Quantity::from_int(10, 0).unwrap());
    submit_accept(&mut order);
    let r = order.apply(OrderEvent::Filled {
        event_id: UUID4::new(3),
        trade_id: TradeId::new("T-1").unwrap(),
        position_id: None,
        last_qty: Quantity::from_raw(1, 3),
        last_px: Price::from_raw(100, 1),
        liquidity_side: LiquiditySide::Taker,
        ts_event: 30,
    });
    assert_eq!(r, Err(OrderError::FillPrecisionMismatch));
}

#[test]
fn test_trigger_only_for_stop_orders() {
    let mut market = market_order("O-14", Quantity::from_int(1, 0).unwrap());
    submit_accept(&mut market);
    let r = market.apply(OrderEvent::Triggered { event_id: UUID4::new(3), ts_event: 30 });
    assert_eq!(r, Err(OrderError::InvalidStatusTransition));

    let mut stop = stop_market_order("O-15", Price::from_int(1, 5).unwrap());
    stop.apply(OrderEvent::Submitted { event_id: UUID4::new(1), ts_event: 10 })
        .unwrap();
    stop.apply(OrderEvent::Accepted {
        event_id: UUID4::new(2),
        venue_order_id: VenueOrderId::new("V-2").unwrap(),
        account_id: AccountId::new("SIM-001").unwrap(),
        ts_event: 20,
    })
    .unwrap();
    assert!(!stop.is_triggered());
    stop.apply(OrderEvent::Triggered { event_id: UUID4::new(3), ts_event: 30 })
        .unwrap();
    assert!(stop.is_triggered());
    assert_eq!(stop.ts_triggered(), Some(30));
    assert_eq!(stop.status(), OrderStatus::Triggered);
}

#[test]
fn test_rejected_is_terminal() {
    let mut order = market_order("O-16", Quantity::from_int(1, 0).unwrap());
    order
        .apply(OrderEvent::Submitted { event_id: UUID4::new(1), ts_event: 10 })
        .unwrap();
    order
        .apply(OrderEvent::Rejected { event_id: UUID4::new(2), ts_event: 20 })
        .unwrap();
    assert_eq!(order.status(), OrderStatus::Rejected);
    let r = order.apply(OrderEvent::Expired { event_id: UUID4::new(3), ts_event: 30 });
    assert_eq!(r, Err(OrderError::InvalidStatusTransition));
}

#[test]
fn test_initialization_event_not_applicable() {
    let mut order = market_order("O-17", Quantity::from_int(1, 0).unwrap());
    let init: OrderInitialized = order.to_initialized();
    let r = order.apply(OrderEvent::Initialized(init));
    assert_eq!(r, Err(OrderError::AlreadyInitialized));
}

#[test]
fn test_market_order_default() {
    let order = MarketOrder::default();
    assert_eq!(order.quantity(), Quantity::from_raw(100_000, 0));
    assert_eq!(order.side(), OrderSide::Buy);
    assert_eq!(order.time_in_force(), TimeInForce::Day);
    assert_eq!(order.status(), OrderStatus::Initialized);
    assert_eq!(order.ts_init(), 0);
}

#[test]
fn test_stop_market_order_default() {
    let order = StopMarketOrder::default();
    assert_eq!(order.quantity(), Quantity::from_raw(100_000, 0));
    assert_eq!(order.trigger_price(), Some(Price::from_raw(100_000, 5)));
    assert_eq!(order.trigger_type(), Some(TriggerType::BidAsk));
    assert_eq!(order.time_in_force(), TimeInForce::Gtc);
    assert!(!order.is_triggered());
}

#[test]
fn test_zero_quantity_fill_rejected() {
    let mut order = market_order("O-18", Quantity::from_int(10, 0).unwrap());
    submit_accept(&mut order);
    let r = order.apply(OrderEvent::Filled {
        event_id: UUID4::new(3),
        trade_id: TradeId::new("T-1").unwrap(),
        position_id: None,
        last_qty: Quantity::from_raw(0, 0),
        last_px: Price::from_raw(100, 1),
        liquidity_side: LiquiditySide::Taker,
        ts_event: 30,
    });
    assert_eq!(r, Err(OrderError::FillNotPositive));
}

#[test]
fn test_negative_fill_price_rejected() {
    let mut order = market_order("O-19", Quantity::from_int(10, 0).unwrap());
    submit_accept(&mut order);
    let r = order.apply(OrderEvent::Filled {
        event_id: UUID4::new(3),
        trade_id: TradeId::new("T-1").unwrap(),
        position_id: None,
        last_qty: Quantity::from_raw(5, 0),
        last_px: Price::from_raw(-1, 1),
        liquidity_side: LiquiditySide::Taker,
        ts_event: 30,
    });
    assert_eq!(r, Err(OrderError::NegativeFillPrice));
}

#[test]
fn test_structural_fields_carried_through() {
    let linked = vec![
        ClientOrderId::new("O-20-A").unwrap(),
        ClientOrderId::new("O-20-B").unwrap(),
    ];
    let params = vec![
        ("horizon".to_owned(), "10".to_owned()),
        ("interval".to_owned(), "1s".to_owned()),
    ];
    let order = MarketOrder::new(
        TraderId::new("TRADER-001").unwrap(),
        StrategyId::new("S-001").unwrap(),
        InstrumentId::from_str("AUD/USD.SIM").unwrap(),
        ClientOrderId::new("O-20").unwrap(),
        OrderSide::Sell,
        Quantity::from_int(5, 0).unwrap(),
        TimeInForce::Day,
        true,
        true,
        None,
        None,
        Some(linked),
        Some(ClientOrderId::new("O-PARENT").unwrap()),
        None,
        Some(params),
        None,
        Some("tag-a,tag-b".to_owned()),
        UUID4::new(11),
        0,
    )
    .unwrap();
    assert!(order.is_reduce_only());
    assert!(order.is_quote_quantity());
    let linked_back = order.linked_order_ids().unwrap();
    assert_eq!(linked_back.len(), 2);
    assert_eq!(linked_back[0].to_string(), "O-20-A");
    assert_eq!(linked_back[1].to_string(), "O-20-B");
    assert_eq!(
        order.parent_order_id().map(|p| p.to_string()),
        Some("O-PARENT".to_owned())
    );
    let params_back = order.exec_algorithm_params().unwrap();
    assert_eq!(params_back.len(), 2);
    assert_eq!(params_back[0], ("horizon".to_owned(), "10".to_owned()));
    assert_eq!(params_back[1], ("interval".to_owned(), "1s".to_owned()));
    assert_eq!(order.tags(), Some("tag-a,tag-b".to_owned()));
    let event = order.to_initialized();
    let rebuilt = MarketOrder::from_initialized(event).unwrap();
    assert_eq!(rebuilt.tags(), order.tags());
    assert_eq!(
        rebuilt.linked_order_ids().unwrap().len(),
        order.linked_order_ids().unwrap().len()
    );
    assert!(rebuilt.is_reduce_only());
}
