use std::sync::Arc;

use candy_ass::candlestick::Candlestick;
use candy_ass::downloader::{
    advance_cursor, assess_capacity, paced_delay, process_page, BackpressureSignal,
    CandlesticksDownloaderActor, DownloadCandlesticks, DownloadHistoryError, FetchReport,
};
use candy_ass::exchange_type::ExchangeType::Binance;
use candy_ass::symbol::{Symbol, SymbolFilter, SymbolPool};
use candy_ass::timeframe::Timeframe::ThreeMinutes;
use candy_ass::timestamp::Timestamp;

fn bar(pool: &SymbolPool, open_millis: i64, close_millis: i64) -> Candlestick {
    let symbol = Symbol::from_pool(pool, Binance, "BTC".to_string(), "USDT".to_string());
    Candlestick {
        symbol,
        timeframe: ThreeMinutes,
        open_time: Timestamp::from_unix_timestamp_millis(open_millis).unwrap(),
        close_time: Timestamp::from_unix_timestamp_millis(close_millis).unwrap(),
        open_price: 1.0f64.to_bits(),
        close_price: 2.0f64.to_bits(),
        low_price: 0.5f64.to_bits(),
        high_price: 2.5f64.to_bits(),
        volume: 10.0f64.to_bits(),
    }
}

fn command(pool: &SymbolPool) -> DownloadCandlesticks {
    let btc = Symbol::from_pool(pool, Binance, "BTC".to_string(), "USDT".to_string());
    DownloadCandlesticks {
        symbols: Arc::new(vec![btc]),
        timeframe: ThreeMinutes,
        start_date: Timestamp::from_unix_timestamp_millis(1_704_067_200_000).unwrap(),
        filter: SymbolFilter::QuoteAssetIs("USDT".to_string()),
    }
}

#[test]
fn second_command_while_busy_is_rejected() {
    let pool = SymbolPool::new();
    let mut actor = CandlesticksDownloaderActor::new(10, 3, 25);
    let msg = command(&pool);

    let plan = actor.handle(&msg).unwrap();
    assert_eq!(plan.work_list.len(), 1);
    assert_eq!(plan.max_delay, 75);

    let err = actor.handle(&msg).unwrap_err();
    assert_eq!(err, DownloadHistoryError::ActorIsBusy);

    actor.finish_work();
    assert!(actor.handle(&msg).is_ok());
}

#[test]
fn plan_applies_the_filter_and_records_the_count() {
    let pool = SymbolPool::new();
    let btc = Symbol::from_pool(&pool, Binance, "BTC".to_string(), "USDT".to_string());
    let eth_eur = Symbol::from_pool(&pool, Binance, "ETH".to_string(), "EUR".to_string());
    let mut actor = CandlesticksDownloaderActor::new(10, 3, 25);
    let msg = DownloadCandlesticks {
        symbols: Arc::new(vec![btc, eth_eur]),
        timeframe: ThreeMinutes,
        start_date: Timestamp::from_unix_timestamp_millis(0).unwrap(),
        filter: SymbolFilter::QuoteAssetIs("USDT".to_string()),
    };
    let plan = actor.handle(&msg).unwrap();
    assert_eq!(plan.symbols_count, 1);
    assert_eq!(plan.work_list[0].base_asset, "BTC");
}

#[test]
fn pagination_stops_exactly_on_an_empty_page() {
    let pool = SymbolPool::new();
    // Three pages as a fetcher would see them: two with bars, then an
    // empty one.
    let pages: Vec<Vec<Candlestick>> = vec![
        vec![
            bar(&pool, 1_704_067_200_000, 1_704_067_380_000),
            bar(&pool, 1_704_067_380_000, 1_704_067_560_000),
        ],
        vec![bar(&pool, 1_704_067_560_000, 1_704_067_740_000)],
        vec![],
    ];

    let mut cursor = Some(Timestamp::from_unix_timestamp_millis(1_704_067_200_000).unwrap());
    let mut requests = 0;
    let mut forwarded = 0;
    for page in &pages {
        assert!(cursor.is_some(), "no request may follow an empty page");
        requests += 1;
        let outcome = process_page(page, 40, 75, 10, 10);
        if outcome.report.produced_count > 0 {
            forwarded += 1;
        }
        cursor = outcome.next_cursor;
    }

    assert_eq!(requests, 3);
    assert_eq!(forwarded, 2);
    assert!(cursor.is_none(), "the empty page ends pagination");
}

#[test]
fn cursor_advances_to_the_last_close_time() {
    let pool = SymbolPool::new();
    let page = vec![
        bar(&pool, 1_704_067_200_000, 1_704_067_380_000),
        bar(&pool, 1_704_067_380_000, 1_704_067_560_000),
    ];
    let report = FetchReport::from_page(&page, 12);
    assert_eq!(report.produced_count, 2);
    assert_eq!(report.latency, 12);
    let next = advance_cursor(&report).unwrap();
    assert_eq!(next.unix_timestamp_millis(), 1_704_067_560_000);
}

#[test]
fn paced_delay_is_the_budget_less_latency_floored_at_zero() {
    // budget 25 ms x concurrency 3 = 75 ms amortised delay
    assert_eq!(paced_delay(75, 0), 75);
    assert_eq!(paced_delay(75, 40), 35);
    assert_eq!(paced_delay(75, 75), 0);
    assert_eq!(paced_delay(75, 1000), 0);
}

#[test]
fn capacity_thresholds_match_the_buffer_shares() {
    // buffer 10: warn below 3, note below 5
    assert_eq!(assess_capacity(0, 10), Some(BackpressureSignal::SlowConsumer));
    assert_eq!(assess_capacity(2, 10), Some(BackpressureSignal::SlowConsumer));
    assert_eq!(assess_capacity(3, 10), Some(BackpressureSignal::Note));
    assert_eq!(assess_capacity(4, 10), Some(BackpressureSignal::Note));
    assert_eq!(assess_capacity(5, 10), None);
    assert_eq!(assess_capacity(10, 10), None);
}
