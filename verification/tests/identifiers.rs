use order_model::errors::ValidationError;
use order_model::identifiers::{
    check_identifier, client_id_hash, ClientId, ClientOrderId, InstrumentId, Symbol, TraderId,
    Venue,
};

#[test]
fn test_string_reprs() {
    let id = ClientId::new("BINANCE").unwrap();
    assert_eq!(id.to_string(), "BINANCE");
    assert_eq!(format!("{}", id.to_string()), "BINANCE");
}

#[test]
fn test_client_id_hash_c() {
    let id1 = ClientId::new("BINANCE").unwrap();
    let id2 = ClientId::new("BINANCE").unwrap();
    let id3 = ClientId::new("DYDX").unwrap();
    assert_eq!(client_id_hash(&id1), client_id_hash(&id2));
    assert_ne!(client_id_hash(&id1), client_id_hash(&id3));
}

#[test]
fn test_identity_value_built_twice() {
    let a = ClientId::new("BINANCE").unwrap();
    let b = ClientId::new("BINANCE").unwrap();
    assert!(a == b);
    assert_eq!(client_id_hash(&a), client_id_hash(&b));
    let c = ClientId::new("DYDX").unwrap();
    assert!(a != c);
    assert_ne!(client_id_hash(&a), client_id_hash(&c));
}

#[test]
fn test_empty_identifier_rejected() {
    assert_eq!(TraderId::new(""), Err(ValidationError::EmptyIdentifier));
    assert_eq!(
        ValidationError::EmptyIdentifier.message(),
        "identifier value was empty"
    );
}

#[test]
fn test_whitespace_identifier_rejected() {
    assert_eq!(
        ClientOrderId::new("  \t\n"),
        Err(ValidationError::WhitespaceIdentifier)
    );
    assert_eq!(check_identifier(" \r "), Err(ValidationError::WhitespaceIdentifier));
    assert_eq!(check_identifier("x"), Ok(()));
}

#[test]
fn test_instrument_id_parsing() {
    let id = InstrumentId::from_str("AUD/USD.SIM").unwrap();
    assert_eq!(id.symbol.to_string(), "AUD/USD");
    assert_eq!(id.venue.to_string(), "SIM");
    assert_eq!(id.to_string(), "AUD/USD.SIM");
}

#[test]
fn test_instrument_id_malformed() {
    assert_eq!(
        InstrumentId::from_str("AUDUSD"),
        Err(ValidationError::MalformedInstrumentId)
    );
    assert_eq!(
        InstrumentId::from_str("A.B.C"),
        Err(ValidationError::MalformedInstrumentId)
    );
    assert_eq!(
        InstrumentId::from_str(".SIM"),
        Err(ValidationError::MalformedInstrumentId)
    );
    assert_eq!(
        InstrumentId::from_str("ETHUSDT."),
        Err(ValidationError::MalformedInstrumentId)
    );
}

#[test]
fn test_instrument_id_from_parts() {
    let symbol = Symbol::new("ETHUSDT").unwrap();
    let venue = Venue::new("BINANCE").unwrap();
    let id = InstrumentId::new(symbol, venue);
    assert_eq!(id.to_string(), "ETHUSDT.BINANCE");
    let parsed = InstrumentId::from_str("ETHUSDT.BINANCE").unwrap();
    assert!(id == parsed);
}
