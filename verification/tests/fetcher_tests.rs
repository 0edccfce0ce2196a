use candy_ass::binance::{ExchangeInfoResponse, ExchangeInfoSymbols};
use candy_ass::http::HttpResponseError;
use candy_ass::symbol::SymbolPool;
use candy_ass::symbols_fetcher::{
    snapshot_ready, FailedToFetchSymbolsError, RefreshPolicy, SymbolsFetcherActor,
};

fn catalog() -> ExchangeInfoResponse {
    ExchangeInfoResponse {
        symbols: vec![
            ExchangeInfoSymbols {
                base_asset: "BTC".to_string(),
                quote_asset: "USDT".to_string(),
                is_spot_trading_allowed: true,
                is_margin_trading_allowed: true,
            },
            ExchangeInfoSymbols {
                base_asset: "ETH".to_string(),
                quote_asset: "USDT".to_string(),
                is_spot_trading_allowed: true,
                is_margin_trading_allowed: false,
            },
        ],
    }
}

#[test]
fn lazy_policy_fetches_nothing_until_told() {
    let actor = SymbolsFetcherActor::new(RefreshPolicy::Lazy);
    let plan = actor.started();
    assert!(!plan.initial_refresh);
    assert_eq!(plan.interval, None);
    // No refresh has run: a subscriber observes no snapshot.
    assert!(actor.current_snapshot().is_none());
}

#[test]
fn one_shot_policy_fetches_exactly_once_at_startup() {
    let actor = SymbolsFetcherActor::new(RefreshPolicy::OneShot);
    let plan = actor.started();
    assert!(plan.initial_refresh);
    assert_eq!(plan.interval, None);
}

#[test]
fn periodic_policy_repeats_on_the_interval() {
    let actor = SymbolsFetcherActor::new(RefreshPolicy::Periodic(20));
    let plan = actor.started();
    assert!(plan.initial_refresh);
    assert_eq!(plan.interval, Some(20));
}

#[test]
fn refresh_publishes_the_catalog_as_canonical_symbols() {
    let pool = SymbolPool::new();
    let mut actor = SymbolsFetcherActor::new(RefreshPolicy::Lazy);

    let snapshot = actor.apply_refresh(&pool, Ok(catalog())).unwrap();
    assert_eq!(snapshot.len(), 2);
    assert_eq!(snapshot[0].base_asset, "BTC");
    assert_eq!(snapshot[1].base_asset, "ETH");
    assert_eq!(snapshot[1].quote_asset, "USDT");

    // Late subscribers observe the latest snapshot.
    let observed = actor.current_snapshot().unwrap();
    assert_eq!(observed.len(), 2);
    assert!(snapshot_ready(&Some(observed)));
}

#[test]
fn failed_refresh_keeps_the_prior_snapshot() {
    let pool = SymbolPool::new();
    let mut actor = SymbolsFetcherActor::new(RefreshPolicy::Lazy);

    actor.apply_refresh(&pool, Ok(catalog())).unwrap();

    let err = actor
        .apply_refresh(&pool, Err(HttpResponseError::Transport("refused".to_string())))
        .unwrap_err();
    assert!(matches!(err, FailedToFetchSymbolsError::Transport(_)));

    // Stale but available: the earlier snapshot is still visible.
    let observed = actor.current_snapshot().unwrap();
    assert_eq!(observed.len(), 2);
}

#[test]
fn waiting_ends_only_on_a_non_empty_snapshot() {
    assert!(!snapshot_ready(&None));
    assert!(!snapshot_ready(&Some(std::sync::Arc::new(vec![]))));
}

#[test]
fn interning_dedupes_catalog_entries() {
    let pool = SymbolPool::new();
    let response = ExchangeInfoResponse {
        symbols: vec![catalog().symbols[0].clone(), catalog().symbols[0].clone()],
    };
    let symbols = response.to_symbols(&pool);
    assert_eq!(symbols.len(), 2);
    assert!(std::sync::Arc::ptr_eq(&symbols[0], &symbols[1]));
}
