//! One OHLCV observation for an instrument and timeframe over one time
//! interval. Immutable after construction.
//!
//! Price and volume fields carry IEEE-754 double-precision bit patterns:
//! the process boundary converts between the wire's floating-point
//! values and these bits, one for one, so the library can move and store
//! them exactly without doing floating-point arithmetic itself.
use vstd::prelude::*;

use std::sync::Arc;

use crate::symbol::Symbol;
use crate::timeframe::Timeframe;
use crate::timestamp::Timestamp;

verus! {

/// A bar: one OHLCV observation. The instrument handle is shared with
/// the interning registry; the bar itself is moved, not shared, down
/// the pipeline.
#[derive(Debug)]
pub struct Candlestick {
    pub symbol: Arc<Symbol>,
    pub timeframe: Timeframe,
    pub open_time: Timestamp,
    pub close_time: Timestamp,
    pub open_price: u64,
    pub close_price: u64,
    pub low_price: u64,
    pub high_price: u64,
    pub volume: u64,
}

impl Candlestick {
    /// Whether both timestamps lie in the representable calendar range.
    pub open spec fn times_valid(&self) -> bool {
        self.open_time.is_valid() && self.close_time.is_valid()
    }

    /// A second handle-sharing copy of the bar: every field is equal,
    /// and the instrument handle points at the same registry entry.
    pub fn duplicate(&self) -> (r: Candlestick)
        ensures
            r == *self,
    {
        Candlestick {
            symbol: crate::symbol::share_symbol(&self.symbol),
            timeframe: self.timeframe,
            open_time: self.open_time,
            close_time: self.close_time,
            open_price: self.open_price,
            close_price: self.close_price,
            low_price: self.low_price,
            high_price: self.high_price,
            volume: self.volume,
        }
    }
}

} // verus!
