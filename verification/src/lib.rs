//! Core engine of a market-history backtesting pipeline: an interning
//! registry of canonical instruments, a catalog refresher, a single-flight
//! concurrency-bounded history downloader, and a windowed history replayer,
//! together with the row codecs that tie them to storage and to the
//! exchange's paginated klines endpoint.
pub mod binance;
pub mod candlestick;
pub mod clickhouse;
pub mod config;
pub mod downloader;
pub mod errors;
pub mod exchange_type;
pub mod http;
pub mod klines_api;
pub mod pipeline;
pub mod reproducer;
pub mod symbol;
pub mod symbols_fetcher;
pub mod text;
pub mod timeframe;
pub mod timestamp;
pub mod utils_parser;
