use rust_decimal::Decimal;

use order_model::enums::{AssetClass, AssetType, OptionKind};
use order_model::errors::ValidationError;
use order_model::identifiers::{InstrumentId, Symbol};
use order_model::instruments::{Currency, OptionsContract};
use order_model::types::{Price, Quantity};
use order_model::wrangler::TradeTickDataWrangler;

#[test]
fn test_quantity_from_int_scales() {
    assert_eq!(Quantity::from_int(7, 3).unwrap(), Quantity::from_raw(7_000, 3));
    assert_eq!(Quantity::from_int(100_000, 0).unwrap(), Quantity::from_raw(100_000, 0));
    assert_eq!(
        Quantity::from_int(u64::MAX, 1),
        Err(ValidationError::QuantityOutOfRange)
    );
    assert_eq!(
        Quantity::from_int(1, 20),
        Err(ValidationError::QuantityOutOfRange)
    );
}

#[test]
fn test_price_from_int_scales() {
    assert_eq!(Price::from_int(1, 5).unwrap(), Price::from_raw(100_000, 5));
    assert_eq!(Price::from_int(-5, 2).unwrap(), Price::from_raw(-500, 2));
    assert_eq!(Price::from_int(0, 9).unwrap(), Price::from_raw(0, 9));
    assert_eq!(
        Price::from_int(i64::MAX, 1),
        Err(ValidationError::PriceOutOfRange)
    );
}

fn contract(venue: &str, maker_fee: Decimal) -> OptionsContract {
    OptionsContract::new(
        InstrumentId::from_str(&format!("AAPL230616C00150000.{venue}")).unwrap(),
        Symbol::new("AAPL230616C00150000").unwrap(),
        AssetClass::Equity,
        "AAPL".to_owned(),
        OptionKind::Call,
        1_686_931_200_000_000_000,
        Price::from_int(150, 2).unwrap(),
        Currency::new("USD").unwrap(),
        2,
        Price::from_raw(1, 2),
        Some(Quantity::from_int(1, 0).unwrap()),
        None,
        None,
        None,
        None,
        Decimal::ZERO,
        Decimal::ZERO,
        maker_fee,
        Decimal::new(1, 3),
    )
}

#[test]
fn test_options_contract_accessors() {
    let c = contract("OPRA", Decimal::new(5, 4));
    assert_eq!(c.asset_type(), AssetType::Option);
    assert_eq!(c.asset_class(), AssetClass::Equity);
    assert!(c.base_currency().is_none());
    assert!(!c.is_inverse());
    assert_eq!(c.price_precision(), 2);
    assert_eq!(c.size_precision(), 0);
    assert_eq!(c.size_increment(), Quantity::from_raw(1, 0));
    assert_eq!(c.multiplier(), Quantity::from_raw(1, 0));
    assert_eq!(c.quote_currency().to_string(), "USD");
    assert_eq!(c.settlement_currency().to_string(), "USD");
    assert_eq!(c.maker_fee(), Decimal::new(5, 4));
    assert_eq!(c.taker_fee(), Decimal::new(1, 3));
    assert_eq!(c.id().to_string(), "AAPL230616C00150000.OPRA");
    assert_eq!(c.lot_size(), Some(Quantity::from_raw(1, 0)));
}

#[test]
fn test_options_contract_equality_by_id() {
    let a = contract("OPRA", Decimal::ZERO);
    let b = contract("OPRA", Decimal::new(5, 4));
    let c = contract("XCBO", Decimal::ZERO);
    assert!(a == b);
    assert!(a != c);
}

#[test]
fn test_wrangler_construction() {
    let w = TradeTickDataWrangler::new("ETHUSDT.BINANCE", 2, 3).unwrap();
    assert_eq!(w.instrument_id(), "ETHUSDT.BINANCE");
    assert_eq!(w.price_precision(), 2);
    assert_eq!(w.size_precision(), 3);
    let metadata = w.metadata();
    assert_eq!(metadata.len(), 3);
    assert_eq!(metadata[0].0, "instrument_id");
    assert_eq!(metadata[0].1, "ETHUSDT.BINANCE");
    assert_eq!(metadata[1].0, "price_precision");
    assert_eq!(metadata[1].1, "2");
    assert_eq!(metadata[2].0, "size_precision");
    assert_eq!(metadata[2].1, "3");
}

#[test]
fn test_wrangler_decimal_rendering() {
    let w = TradeTickDataWrangler::new("A.B", 255, 0).unwrap();
    assert_eq!(w.metadata()[1].1, "255");
    assert_eq!(w.metadata()[2].1, "0");
    let w = TradeTickDataWrangler::new("A.B", 10, 99).unwrap();
    assert_eq!(w.metadata()[1].1, "10");
    assert_eq!(w.metadata()[2].1, "99");
}

#[test]
fn test_wrangler_malformed_instrument() {
    assert!(matches!(
        TradeTickDataWrangler::new("ETHUSDT", 2, 3),
        Err(ValidationError::MalformedInstrumentId)
    ));
}

#[test]
fn test_options_contract_id_hash() {
    let a = contract("OPRA", Decimal::ZERO);
    let b = contract("OPRA", Decimal::new(5, 4));
    let c = contract("XCBO", Decimal::ZERO);
    assert_eq!(a.id_hash(), b.id_hash());
    assert_ne!(a.id_hash(), c.id_hash());
}
