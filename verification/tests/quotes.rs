use write_behind::model::InstrumentId;
use write_behind::quote::{Price, PriceType, Quantity, QuoteTick, FIXED_PRECISION};

fn eth_tick() -> QuoteTick {
    QuoteTick::new(
        InstrumentId::new("ETHUSDT-PERP.BINANCE".to_string()),
        Price::from_raw(10_000_000_000_000, 4),
        Price::from_raw(10_001_000_000_000, 4),
        Quantity::from_raw(1_000_000_000, 8),
        Quantity::from_raw(1_000_000_000, 8),
        0,
        0,
    )
}

#[test]
fn extract_price_bid() {
    let tick = eth_tick();
    let price = tick.extract_price(PriceType::Bid);
    assert_eq!(price.raw, 10_000_000_000_000);
    assert_eq!(price.precision, 4);
}

#[test]
fn extract_price_ask() {
    let tick = eth_tick();
    let price = tick.extract_price(PriceType::Ask);
    assert_eq!(price.raw, 10_001_000_000_000);
    assert_eq!(price.precision, 4);
}

#[test]
fn extract_price_mid() {
    let tick = eth_tick();
    let price = tick.extract_price(PriceType::Mid);
    assert_eq!(price.raw, 10_000_500_000_000);
    assert_eq!(price.precision, 5);
}

#[test]
fn extract_price_mid_precision_is_capped() {
    let tick = QuoteTick::new(
        InstrumentId::new("EUR/USD.SIM".to_string()),
        Price::from_raw(2, FIXED_PRECISION),
        Price::from_raw(4, FIXED_PRECISION),
        Quantity::from_raw(1, 0),
        Quantity::from_raw(1, 0),
        0,
        0,
    );
    let price = tick.extract_price(PriceType::Mid);
    assert_eq!(price.raw, 3);
    assert_eq!(price.precision, FIXED_PRECISION);
}

#[test]
fn extract_price_mid_truncates_toward_zero() {
    let tick = QuoteTick::new(
        InstrumentId::new("SPREAD.SIM".to_string()),
        Price::from_raw(-3, 0),
        Price::from_raw(0, 0),
        Quantity::from_raw(1, 0),
        Quantity::from_raw(1, 0),
        0,
        0,
    );
    let price = tick.extract_price(PriceType::Mid);
    assert_eq!(price.raw, -1);
}

#[test]
fn test_to_string() {
    let tick = eth_tick();
    assert_eq!(
        tick.to_string(),
        "ETHUSDT-PERP.BINANCE,10000.0000,10001.0000,1.00000000,1.00000000,0"
    );
}

#[test]
fn to_string_negative_price() {
    let tick = QuoteTick::new(
        InstrumentId::new("SPREAD.SIM".to_string()),
        Price::from_raw(-1_500_000_000, 2),
        Price::from_raw(2_500_000_000, 2),
        Quantity::from_raw(1_000_000_000, 0),
        Quantity::from_raw(1_000_000_000, 0),
        7,
        9,
    );
    assert_eq!(tick.to_string(), "SPREAD.SIM,-1.50,2.50,1,1,7");
}

#[test]
fn quote_tick_new_keeps_fields() {
    let tick = eth_tick();
    assert_eq!(tick.instrument_id.value, "ETHUSDT-PERP.BINANCE".to_string());
    assert_eq!(tick.bid, Price::from_raw(10_000_000_000_000, 4));
    assert_eq!(tick.ask, Price::from_raw(10_001_000_000_000, 4));
    assert_eq!(tick.bid_size, Quantity::from_raw(1_000_000_000, 8));
    assert_eq!(tick.ask_size, Quantity::from_raw(1_000_000_000, 8));
    assert_eq!(tick.ts_event, 0);
    assert_eq!(tick.ts_init, 0);
}
