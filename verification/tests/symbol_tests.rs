use std::collections::HashSet;
use std::sync::Arc;

use candy_ass::exchange_type::ExchangeType::Binance;
use candy_ass::symbol::{filter_symbols, Symbol, SymbolFilter, SymbolPool};

#[test]
fn test_reuse_symbol_from_pool() {
    let pool = SymbolPool::new();
    let s1 = Symbol::from_pool(&pool, Binance, "BTC".to_string(), "USDT".to_string());
    let s2 = Symbol::from_pool(&pool, Binance, "BTC".to_string(), "USDT".to_string());

    assert!(Arc::ptr_eq(&s1, &s2));
    assert_eq!(s1.short_name(), "BTCUSDT");
}

#[test]
fn test_symbol_hashing() {
    let mut set = HashSet::new();

    let s1 = Symbol {
        exchange_type: Binance,
        base_asset: "BTC".to_string(),
        quote_asset: "USDT".to_string(),
    };

    let s2 = Symbol {
        exchange_type: Binance,
        base_asset: "BTC".to_string(),
        quote_asset: "USDT".to_string(),
    };

    assert!(set.insert(s1.clone()));
    assert!(!set.insert(s2));
}

#[test]
fn short_name_uppercases_lowercase_assets() {
    let pool = SymbolPool::new();
    let s = Symbol::from_pool(&pool, Binance, "btc".to_string(), "usdt".to_string());
    assert_eq!(s.short_name(), "BTCUSDT");
}

#[test]
fn distinct_keys_get_distinct_handles() {
    let pool = SymbolPool::new();
    let s1 = Symbol::from_pool(&pool, Binance, "BTC".to_string(), "USDT".to_string());
    let s2 = Symbol::from_pool(&pool, Binance, "ETH".to_string(), "USDT".to_string());
    assert!(!Arc::ptr_eq(&s1, &s2));
    assert_eq!(s2.base_asset, "ETH");
}

#[test]
fn filter_keeps_matching_quote_assets_in_order() {
    let pool = SymbolPool::new();
    let symbols = vec![
        Symbol::from_pool(&pool, Binance, "BTC".to_string(), "USDT".to_string()),
        Symbol::from_pool(&pool, Binance, "BTC".to_string(), "EUR".to_string()),
        Symbol::from_pool(&pool, Binance, "ETH".to_string(), "USDT".to_string()),
    ];
    let filter = SymbolFilter::QuoteAssetIs("USDT".to_string());
    let kept = filter_symbols(&symbols, &filter);
    assert_eq!(kept.len(), 2);
    assert_eq!(kept[0].base_asset, "BTC");
    assert_eq!(kept[1].base_asset, "ETH");
}

#[test]
fn filter_on_base_asset_list() {
    let pool = SymbolPool::new();
    let symbols = vec![
        Symbol::from_pool(&pool, Binance, "BTC".to_string(), "USDT".to_string()),
        Symbol::from_pool(&pool, Binance, "DOGE".to_string(), "USDT".to_string()),
        Symbol::from_pool(&pool, Binance, "ETH".to_string(), "USDT".to_string()),
        Symbol::from_pool(&pool, Binance, "ETH".to_string(), "EUR".to_string()),
    ];
    let filter = SymbolFilter::QuoteAssetIsAndBaseAssetIn(
        "USDT".to_string(),
        vec!["BTC".to_string(), "ETH".to_string()],
    );
    let kept = filter_symbols(&symbols, &filter);
    assert_eq!(kept.len(), 2);
    assert_eq!(kept[0].base_asset, "BTC");
    assert_eq!(kept[1].base_asset, "ETH");

    let all = filter_symbols(&symbols, &SymbolFilter::Any);
    assert_eq!(all.len(), 4);
}
