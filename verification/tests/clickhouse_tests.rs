use candy_ass::candlestick::Candlestick;
use candy_ass::clickhouse::{
    decode_rows, encode_batches, format_clickhouse_date, CandlestickRow,
};
use candy_ass::exchange_type::ExchangeType::Binance;
use candy_ass::symbol::{Symbol, SymbolPool};
use candy_ass::timeframe::Timeframe;
use candy_ass::timestamp::Timestamp;

fn make_candlestick_row() -> CandlestickRow {
    CandlestickRow {
        exchange_type: "Binance".to_string(),
        base_asset: "BTC".to_string(),
        quote_asset: "USDT".to_string(),
        timeframe: "1m".to_string(),
        open_time: 1_600_000_000,
        close_time: 1_600_000_060,
        open_price: 10000.0f64.to_bits(),
        close_price: 10100.0f64.to_bits(),
        low_price: 9950.0f64.to_bits(),
        high_price: 10200.0f64.to_bits(),
        volume: 0.25f64.to_bits(),
    }
}

fn make_candlestick(pool: &SymbolPool) -> Candlestick {
    let symbol = Symbol::from_pool(pool, Binance, "BTC".to_string(), "USDT".to_string());
    Candlestick {
        symbol,
        timeframe: Timeframe::OneMinute,
        open_time: Timestamp::from_unix_timestamp_millis(1_600_000_000_000).unwrap(),
        close_time: Timestamp::from_unix_timestamp_millis(1_600_000_060_000).unwrap(),
        open_price: 10000.0f64.to_bits(),
        close_price: 10100.0f64.to_bits(),
        low_price: 9950.0f64.to_bits(),
        high_price: 10200.0f64.to_bits(),
        volume: 0.25f64.to_bits(),
    }
}

#[test]
fn test_format_clickhouse() {
    // given: 2024-01-01T02:03:04Z
    let dt = Timestamp::from_unix_timestamp_millis(1_704_074_584_000).unwrap();

    // when
    let formatted = format_clickhouse_date(dt);

    // then
    assert_eq!(formatted, "2024-01-01 02:03:04");
}

#[test]
fn format_covers_leap_days_and_padding() {
    // 2024-02-29T23:59:59Z
    let dt = Timestamp::from_unix_timestamp_millis(1_709_251_199_000).unwrap();
    assert_eq!(format_clickhouse_date(dt), "2024-02-29 23:59:59");

    // The epoch itself.
    let dt = Timestamp::from_unix_timestamp_millis(0).unwrap();
    assert_eq!(format_clickhouse_date(dt), "1970-01-01 00:00:00");

    // 1999-12-31T09:05:00Z: a nine in the year, zero-padded fields.
    let dt = Timestamp::from_unix_timestamp_millis(946_631_100_000).unwrap();
    assert_eq!(format_clickhouse_date(dt), "1999-12-31 09:05:00");
}

#[test]
fn test_to_candlestick() {
    let pool = SymbolPool::new();
    let row = make_candlestick_row();
    let candlestick = row.to_candlestick(&pool).unwrap();
    assert_eq!(f64::from_bits(candlestick.open_price), 10000.0);
    assert_eq!(f64::from_bits(candlestick.close_price), 10100.0);
    assert_eq!(f64::from_bits(candlestick.volume), 0.25);
    assert_eq!(candlestick.symbol.base_asset, "BTC");
    assert_eq!(candlestick.symbol.exchange_type, Binance);
    assert_eq!(candlestick.timeframe, Timeframe::OneMinute);
}

#[test]
fn test_from_candlestick() {
    let pool = SymbolPool::new();
    let candlestick = make_candlestick(&pool);
    let row = CandlestickRow::from_candlestick(&candlestick);

    assert_eq!(row.base_asset, "BTC");
    assert_eq!(row.quote_asset, "USDT");
    assert_eq!(row.exchange_type, "Binance");
    assert_eq!(row.timeframe, "1m");
    assert_eq!(f64::from_bits(row.open_price), 10000.0);
    assert_eq!(f64::from_bits(row.close_price), 10100.0);
}

#[test]
fn row_roundtrip_is_field_for_field() {
    let pool = SymbolPool::new();
    let symbol = Symbol::from_pool(&pool, Binance, "BTC".to_string(), "USDT".to_string());
    // 2024-01-01T00:00:00Z, one day wide: the representative fixture.
    let original = Candlestick {
        symbol,
        timeframe: Timeframe::OneDay,
        open_time: Timestamp::from_unix_timestamp_millis(1_704_067_200_000).unwrap(),
        close_time: Timestamp::from_unix_timestamp_millis(1_704_153_600_000).unwrap(),
        open_price: 100_000.0f64.to_bits(),
        close_price: 101_000.0f64.to_bits(),
        high_price: 101_000.001f64.to_bits(),
        low_price: 99_999.999f64.to_bits(),
        volume: 1_111.1f64.to_bits(),
    };

    let row = CandlestickRow::from_candlestick(&original);
    let decoded = row.to_candlestick(&pool).unwrap();

    assert_eq!(decoded.symbol.exchange_type, original.symbol.exchange_type);
    assert_eq!(decoded.symbol.base_asset, original.symbol.base_asset);
    assert_eq!(decoded.symbol.quote_asset, original.symbol.quote_asset);
    assert_eq!(decoded.timeframe, original.timeframe);
    assert_eq!(decoded.open_time, original.open_time);
    assert_eq!(decoded.close_time, original.close_time);
    assert_eq!(decoded.open_price, original.open_price);
    assert_eq!(decoded.close_price, original.close_price);
    assert_eq!(decoded.low_price, original.low_price);
    assert_eq!(decoded.high_price, original.high_price);
    assert_eq!(decoded.volume, original.volume);
}

#[test]
fn bad_rows_are_dropped_and_good_ones_kept() {
    let pool = SymbolPool::new();
    let good = make_candlestick_row();
    let mut bad_timeframe = make_candlestick_row();
    bad_timeframe.timeframe = "1w".to_string();
    let mut bad_exchange = make_candlestick_row();
    bad_exchange.exchange_type = "Unknown".to_string();

    let rows = vec![bad_timeframe, good, bad_exchange];
    let bars = decode_rows(&rows, &pool);
    assert_eq!(bars.len(), 1);
    assert_eq!(bars[0].symbol.base_asset, "BTC");
    assert_eq!(bars[0].open_time.unix_timestamp_millis(), 1_600_000_000_000);
}

#[test]
fn encode_flattens_batches_in_order() {
    let pool = SymbolPool::new();
    let a = make_candlestick(&pool);
    let mut b = make_candlestick(&pool);
    b.open_time = Timestamp::from_unix_timestamp_millis(1_600_000_060_000).unwrap();
    let c = make_candlestick(&pool);

    let chunk = vec![vec![a.duplicate(), b], vec![], vec![c]];
    drop(a);
    let rows = encode_batches(&chunk);
    assert_eq!(rows.len(), 3);
    assert_eq!(rows[0].open_time, 1_600_000_000);
    assert_eq!(rows[1].open_time, 1_600_000_060);
    assert_eq!(rows[2].open_time, 1_600_000_000);
}
