//! Process configuration values, as plain data. Loading them from the
//! environment or a file happens at the process boundary; the library
//! only carries the loaded values.
use vstd::prelude::*;

verus! {

/// How to reach the columnar store.
#[derive(Debug, Clone)]
pub struct ClickhouseConfig {
    pub host: String,
    pub port: u16,
    pub username: String,
    pub password: String,
}

/// The application's configuration.
#[derive(Debug, Clone)]
pub struct AppConfig {
    pub clickhouse: ClickhouseConfig,
}

} // verus!
