use candy_ass::candlestick::Candlestick;
use candy_ass::clickhouse::ClickhouseRepositoryError;
use candy_ass::exchange_type::ExchangeType::Binance;
use candy_ass::reproducer::{
    replay_step, replay_windows, CandlesticksReproducerActor, ProduceCandlesticks,
    ReplayDecision, ReproduceHistoryError,
};
use candy_ass::symbol::{Symbol, SymbolPool};
use candy_ass::timeframe::Timeframe::OneDay;
use candy_ass::timestamp::Timestamp;

const DAY_MILLIS: i64 = 86_400_000;
const JAN_1: i64 = 1_704_067_200_000; // 2024-01-01T00:00:00Z
const FEB_1: i64 = 1_706_745_600_000; // 2024-02-01T00:00:00Z

fn bar(pool: &SymbolPool, open_millis: i64) -> Candlestick {
    let symbol = Symbol::from_pool(pool, Binance, "BTC".to_string(), "USDT".to_string());
    Candlestick {
        symbol,
        timeframe: OneDay,
        open_time: Timestamp::from_unix_timestamp_millis(open_millis).unwrap(),
        close_time: Timestamp::from_unix_timestamp_millis(open_millis + DAY_MILLIS).unwrap(),
        open_price: 1.0f64.to_bits(),
        close_price: 2.0f64.to_bits(),
        low_price: 0.5f64.to_bits(),
        high_price: 2.5f64.to_bits(),
        volume: 10.0f64.to_bits(),
    }
}

#[test]
fn replay_visits_daily_windows_in_order() {
    let start = Timestamp::from_unix_timestamp_millis(JAN_1).unwrap();
    let end = Timestamp::from_unix_timestamp_millis(FEB_1).unwrap();
    let windows = replay_windows(start, end, DAY_MILLIS);

    assert_eq!(windows.len(), 31);
    assert_eq!(windows[0].0.unix_timestamp_millis(), JAN_1);
    assert_eq!(windows[0].1.unix_timestamp_millis(), JAN_1 + DAY_MILLIS);
    for (i, w) in windows.iter().enumerate() {
        assert_eq!(w.0.unix_timestamp_millis(), JAN_1 + i as i64 * DAY_MILLIS);
        assert_eq!(w.1.unix_timestamp_millis(), JAN_1 + (i as i64 + 1) * DAY_MILLIS);
    }
    // The last window ends exactly at the end of the range.
    assert_eq!(windows[30].0.unix_timestamp_millis(), FEB_1 - DAY_MILLIS);
    assert_eq!(windows[30].1.unix_timestamp_millis(), FEB_1);
}

#[test]
fn empty_range_has_no_windows() {
    let start = Timestamp::from_unix_timestamp_millis(FEB_1).unwrap();
    let end = Timestamp::from_unix_timestamp_millis(JAN_1).unwrap();
    assert_eq!(replay_windows(start, end, DAY_MILLIS).len(), 0);
}

#[test]
fn replay_stops_at_the_first_empty_window() {
    let pool = SymbolPool::new();
    // Window fetch outcomes: bars, a storage error, bars, then empty.
    let outcomes: Vec<Result<Vec<Candlestick>, ClickhouseRepositoryError>> = vec![
        Ok(vec![bar(&pool, JAN_1)]),
        Err(ClickhouseRepositoryError::UnexpectedResult("gone away".to_string())),
        Ok(vec![bar(&pool, JAN_1 + 2 * DAY_MILLIS)]),
        Ok(vec![]),
        Ok(vec![bar(&pool, JAN_1 + 4 * DAY_MILLIS)]),
    ];

    let mut emitted = 0;
    let mut visited = 0;
    for outcome in &outcomes {
        visited += 1;
        match replay_step(outcome) {
            ReplayDecision::Emit => emitted += 1,
            ReplayDecision::Skip => {},
            ReplayDecision::Stop => break,
        }
    }

    assert_eq!(visited, 4, "the empty window ends the replay");
    assert_eq!(emitted, 2, "the failed window is skipped, not fatal");
}

#[test]
fn second_replay_command_while_busy_is_rejected() {
    let mut actor = CandlesticksReproducerActor::new(2);
    let command = ProduceCandlesticks {
        timeframes: vec![OneDay],
        start_date: Timestamp::from_unix_timestamp_millis(JAN_1).unwrap(),
        end_date: Timestamp::from_unix_timestamp_millis(FEB_1).unwrap(),
        step: DAY_MILLIS,
    };

    let plan = actor.handle(&command).unwrap();
    assert_eq!(plan.windows.len(), 31);
    assert_eq!(plan.timeframes, vec![OneDay]);
    assert_eq!(plan.prefetch_buffer, 2);

    let err = actor.handle(&command).unwrap_err();
    assert_eq!(err, ReproduceHistoryError::ActorIsBusy);

    actor.finish_work();
    assert!(actor.handle(&command).is_ok());
}
