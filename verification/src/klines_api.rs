//! The kline (candlestick) page rows of the external market-data API:
//! a fixed-arity array per bar, whose elements arrive as decoded
//! scalars. A row with fewer than eleven elements, or whose numeric
//! fields do not denote numbers, is a parse failure for that row, and a
//! failing row fails the whole page — there is no partial-page
//! recovery.
use vstd::prelude::*;
use vstd::string::StringExecFns;

use std::sync::Arc;

use crate::candlestick::Candlestick;
use crate::http::HttpResponseError;
use crate::symbol::{share_symbol, Symbol};
use crate::timeframe::Timeframe;
use crate::timestamp::{valid_millis, Timestamp, MAX_UNIX_SECONDS};
use crate::utils_parser::{
    is_unexpected_msg, json_f64_bits, json_u64, parse_f64, parse_u64, JsonScalar,
};

verus! {

/// One kline page row as the external API documents it, already read
/// out of its raw array form. Prices and volumes are IEEE-754 double
/// bit patterns; times are epoch milliseconds.
#[derive(Debug, Clone)]
pub struct KlineResponse {
    pub open_time: u64,
    pub open: u64,
    pub high: u64,
    pub low: u64,
    pub close: u64,
    pub volume: u64,
    pub close_time: u64,
    pub quote_asset_volume: u64,
    pub number_of_trades: u64,
    pub taker_buy_base_volume: u64,
    pub taker_buy_quote_volume: u64,
}

impl KlineResponse {
    /// Builds the bar this row describes, for the given instrument and
    /// timeframe.
    pub fn into_candlestick(self, symbol: Arc<Symbol>, timeframe: Timeframe) -> (c: Candlestick)
        requires
            valid_millis(self.open_time as int),
            valid_millis(self.close_time as int),
        ensures
            c.symbol == symbol,
            c.timeframe == timeframe,
            c.open_time.millis == self.open_time,
            c.close_time.millis == self.close_time,
            c.open_price == self.open,
            c.close_price == self.close,
            c.low_price == self.low,
            c.high_price == self.high,
            c.volume == self.volume,
    {
        Candlestick {
            symbol,
            timeframe,
            open_time: Timestamp { millis: self.open_time as i64 },
            close_time: Timestamp { millis: self.close_time as i64 },
            open_price: self.open,
            close_price: self.close,
            low_price: self.low,
            high_price: self.high,
            volume: self.volume,
        }
    }
}

/// Whether a raw page row is acceptable: at least eleven elements, the
/// two time fields denoting epoch milliseconds in the representable
/// calendar range, and the five price and volume fields denoting
/// doubles.
pub open spec fn kline_row_ok(raw: Seq<JsonScalar>) -> bool {
    &&& raw.len() >= 11
    &&& json_u64(raw[0]) matches Some(ot) && valid_millis(ot as int)
    &&& json_u64(raw[6]) matches Some(ct) && valid_millis(ct as int)
    &&& json_f64_bits(raw[1]) is Some
    &&& json_f64_bits(raw[2]) is Some
    &&& json_f64_bits(raw[3]) is Some
    &&& json_f64_bits(raw[4]) is Some
    &&& json_f64_bits(raw[5]) is Some
}

/// Whether bar `c` carries exactly what row `raw` denotes for the
/// given instrument and timeframe.
pub open spec fn kline_row_candle(
    c: Candlestick,
    raw: Seq<JsonScalar>,
    symbol: Arc<Symbol>,
    timeframe: Timeframe,
) -> bool {
    &&& c.symbol == symbol
    &&& c.timeframe == timeframe
    &&& json_u64(raw[0]) matches Some(ot) && c.open_time.millis == ot
    &&& json_u64(raw[6]) matches Some(ct) && c.close_time.millis == ct
    &&& json_f64_bits(raw[1]) matches Some(b) && c.open_price == b
    &&& json_f64_bits(raw[2]) matches Some(b) && c.high_price == b
    &&& json_f64_bits(raw[3]) matches Some(b) && c.low_price == b
    &&& json_f64_bits(raw[4]) matches Some(b) && c.close_price == b
    &&& json_f64_bits(raw[5]) matches Some(b) && c.volume == b
}

impl Candlestick {
    /// Validates one raw page row and builds its bar. Succeeds exactly
    /// on acceptable rows; a short row or a non-numeric field rejects
    /// the row and produces no bar.
    pub fn try_from_json_array(
        raw: &Vec<JsonScalar>,
        symbol: Arc<Symbol>,
        timeframe: Timeframe,
    ) -> (r: Result<Candlestick, HttpResponseError>)
        ensures
            r is Ok <==> kline_row_ok(raw@),
            r matches Ok(c) ==> kline_row_candle(c, raw@, symbol, timeframe),
            raw@.len() < 11 ==> is_unexpected_msg(r, "Not enough fields"@),
    {
        if raw.len() < 11 {
            return Err(HttpResponseError::Unexpected(String::from_str("Not enough fields")));
        }
        let open_time_raw = match parse_u64(&raw[0], "open_time") {
            Ok(v) => v,
            Err(e) => {
                return Err(e);
            },
        };
        if open_time_raw > (MAX_UNIX_SECONDS as u64) * 1000 + 999 {
            return Err(
                HttpResponseError::Unexpected(String::from_str("open_time out of range")),
            );
        }
        let close_time_raw = match parse_u64(&raw[6], "close_time") {
            Ok(v) => v,
            Err(e) => {
                return Err(e);
            },
        };
        if close_time_raw > (MAX_UNIX_SECONDS as u64) * 1000 + 999 {
            return Err(
                HttpResponseError::Unexpected(String::from_str("close_time out of range")),
            );
        }
        let open_price = match parse_f64(&raw[1], "open") {
            Ok(v) => v,
            Err(e) => {
                return Err(e);
            },
        };
        let high_price = match parse_f64(&raw[2], "high") {
            Ok(v) => v,
            Err(e) => {
                return Err(e);
            },
        };
        let low_price = match parse_f64(&raw[3], "low") {
            Ok(v) => v,
            Err(e) => {
                return Err(e);
            },
        };
        let close_price = match parse_f64(&raw[4], "close") {
            Ok(v) => v,
            Err(e) => {
                return Err(e);
            },
        };
        let volume = match parse_f64(&raw[5], "volume") {
            Ok(v) => v,
            Err(e) => {
                return Err(e);
            },
        };
        Ok(
            Candlestick {
                symbol,
                timeframe,
                open_time: Timestamp { millis: open_time_raw as i64 },
                close_time: Timestamp { millis: close_time_raw as i64 },
                open_price,
                high_price,
                low_price,
                close_price,
                volume,
            },
        )
    }
}

/// Validates a whole decoded page and builds its bars in row order.
/// Succeeds exactly when every row is acceptable; the first failing row
/// fails the page.
pub fn candlesticks_from_rows(
    rows: &Vec<Vec<JsonScalar>>,
    symbol: &Arc<Symbol>,
    timeframe: Timeframe,
) -> (r: Result<Vec<Candlestick>, HttpResponseError>)
    ensures
        r is Ok <==> (forall|i: int| 0 <= i < rows@.len() ==> kline_row_ok(#[trigger] rows@[i]@)),
        r matches Ok(v) ==> v@.len() == rows@.len() && (forall|i: int|
            0 <= i < rows@.len() ==> kline_row_candle(
                #[trigger] v@[i],
                rows@[i]@,
                *symbol,
                timeframe,
            )),
{
    let mut out: Vec<Candlestick> = Vec::new();
    let n = rows.len();
    let mut i: usize = 0;
    while i < n
        invariant
            n == rows@.len(),
            i <= n,
            out@.len() == i,
            forall|j: int| 0 <= j < i ==> kline_row_ok(#[trigger] rows@[j]@),
            forall|j: int|
                0 <= j < i ==> kline_row_candle(#[trigger] out@[j], rows@[j]@, *symbol, timeframe),
        decreases n - i,
    {
        match Candlestick::try_from_json_array(&rows[i], share_symbol(symbol), timeframe) {
            Ok(c) => {
                out.push(c);
            },
            Err(e) => {
                proof {
                    assert(!kline_row_ok(rows@[i as int]@));
                }
                return Err(e);
            },
        }
        i = i + 1;
    }
    Ok(out)
}

} // verus!
