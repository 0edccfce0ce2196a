//! The shapes the external market-data API answers with, already
//! decoded from the wire, and the mapping of its instrument catalog
//! into canonical interned instruments.
use vstd::prelude::*;

use std::sync::Arc;

use crate::exchange_type::ExchangeType;
use crate::symbol::{Symbol, SymbolPool, Symbols};

verus! {

/// Base URL of the external exchange's spot API.
pub const BINANCE_SPOT_BASE_URL: &'static str = "https://api.binance.com/api";

/// The static per-request rate budget, in milliseconds per request,
/// that pacing amortises over the concurrent paginators.
pub const BINANCE_RATE_LIMIT: usize = 25;

/// Response header naming the current request-weight usage.
pub const BINANCE_HEADER_USED_WEIGHT: &'static str = "x-mbx-used-weight";

/// Response header naming the request-weight usage over one minute.
pub const BINANCE_HEADER_USED_WEIGHT_1M: &'static str = "x-mbx-used-weight-1m";

/// One catalog entry: a tradable pair and its trading-allowed flags.
#[derive(Debug, Clone)]
pub struct ExchangeInfoSymbols {
    pub base_asset: String,
    pub quote_asset: String,
    pub is_spot_trading_allowed: bool,
    pub is_margin_trading_allowed: bool,
}

/// The instrument catalog the exchange publishes.
#[derive(Debug, Clone)]
pub struct ExchangeInfoResponse {
    pub symbols: Vec<ExchangeInfoSymbols>,
}

/// The exchange's clock reading, in epoch milliseconds.
#[derive(Debug, Clone)]
pub struct BinanceTimeResponse {
    pub server_time: u128,
}

/// Whether `syms` is exactly the canonical form of the catalog rows
/// `rows`: one instrument per row, in order, on this exchange, with
/// the row's asset names.
pub open spec fn catalog_symbols_match(rows: Seq<ExchangeInfoSymbols>, syms: Seq<Arc<Symbol>>) -> bool {
    &&& syms.len() == rows.len()
    &&& forall|i: int|
        0 <= i < rows.len() ==> (#[trigger] syms[i])@.exchange_type == ExchangeType::Binance
            && syms[i]@.base_asset == rows[i].base_asset@ && syms[i]@.quote_asset
            == rows[i].quote_asset@
}

impl ExchangeInfoResponse {
    /// Maps the raw catalog into canonical instruments via the
    /// interning registry, one per row, in order.
    pub fn to_symbols(&self, pool: &SymbolPool) -> (r: Symbols)
        ensures
            catalog_symbols_match(self.symbols@, r@),
    {
        let n = self.symbols.len();
        let mut r: Symbols = Vec::new();
        let mut i: usize = 0;
        while i < n
            invariant
                n == self.symbols@.len(),
                i <= n,
                r@.len() == i,
                forall|j: int|
                    0 <= j < i ==> (#[trigger] r@[j])@.exchange_type == ExchangeType::Binance
                        && r@[j]@.base_asset == self.symbols@[j].base_asset@ && r@[j]@.quote_asset
                        == self.symbols@[j].quote_asset@,
            decreases n - i,
        {
            let source = &self.symbols[i];
            let symbol = Symbol::from_pool(
                pool,
                ExchangeType::Binance,
                source.base_asset.clone(),
                source.quote_asset.clone(),
            );
            r.push(symbol);
            i = i + 1;
        }
        r
    }
}

} // verus!
