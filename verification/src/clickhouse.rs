//! The storage row codec: how a bar is laid out as a columnar-store
//! row and read back. The storage boundary keeps timestamps at second
//! precision and the enum fields as their canonical short strings; a
//! row decodes back to a bar exactly when those strings parse and the
//! timestamps lie in the representable range.
use vstd::prelude::*;
use vstd::string::StringExecFns;

use crate::candlestick::Candlestick;
use crate::exchange_type::{exchange_chars, exchange_of_chars, ExchangeType};
use crate::symbol::{Symbol, SymbolPool};
use crate::timeframe::{timeframe_chars, timeframe_of_chars, Timeframe};
use crate::timestamp::{Timestamp, MAX_UNIX_SECONDS, MIN_UNIX_SECONDS};

verus! {

/// What a storage repository call can fail with.
#[derive(Debug, Clone, PartialEq, Eq)]
pub enum ClickhouseRepositoryError {
    /// The storage engine failed to process a query; carries the
    /// engine's description.
    UnexpectedResult(String),
    /// A stored row failed to decode back into a bar.
    ParsingError(crate::errors::VariantNotFoundError),
}

/// One persisted row. String columns carry the canonical short forms;
/// time columns carry epoch seconds, as the store's second-precision
/// date-time type does; price columns carry IEEE-754 double bits.
#[derive(Debug, Clone)]
pub struct CandlestickRow {
    pub exchange_type: String,
    pub base_asset: String,
    pub quote_asset: String,
    pub timeframe: String,
    pub open_time: i64,
    pub close_time: i64,
    pub open_price: u64,
    pub close_price: u64,
    pub low_price: u64,
    pub high_price: u64,
    pub volume: u64,
}

/// The mathematical content of a [`CandlestickRow`].
pub struct CandlestickRowView {
    pub exchange_type: Seq<char>,
    pub base_asset: Seq<char>,
    pub quote_asset: Seq<char>,
    pub timeframe: Seq<char>,
    pub open_time: int,
    pub close_time: int,
    pub open_price: u64,
    pub close_price: u64,
    pub low_price: u64,
    pub high_price: u64,
    pub volume: u64,
}

impl View for CandlestickRow {
    type V = CandlestickRowView;

    open spec fn view(&self) -> CandlestickRowView {
        CandlestickRowView {
            exchange_type: self.exchange_type@,
            base_asset: self.base_asset@,
            quote_asset: self.quote_asset@,
            timeframe: self.timeframe@,
            open_time: self.open_time as int,
            close_time: self.close_time as int,
            open_price: self.open_price,
            close_price: self.close_price,
            low_price: self.low_price,
            high_price: self.high_price,
            volume: self.volume,
        }
    }
}

/// Rows grouped under one open time.
#[derive(Debug)]
pub struct GroupedCandlestickRow {
    pub open_time: i64,
    pub candlestick_rows: Vec<CandlestickRow>,
}

/// The observable content of a bar, without the shared instrument
/// handle: what "field-for-field equal" means across the storage
/// round trip.
pub struct BarFields {
    pub exchange_type: ExchangeType,
    pub base_asset: Seq<char>,
    pub quote_asset: Seq<char>,
    pub timeframe: Timeframe,
    pub open_millis: int,
    pub close_millis: int,
    pub open_price: u64,
    pub close_price: u64,
    pub low_price: u64,
    pub high_price: u64,
    pub volume: u64,
}

/// The observable content of a bar.
pub open spec fn fields_of_candle(c: Candlestick) -> BarFields {
    BarFields {
        exchange_type: c.symbol@.exchange_type,
        base_asset: c.symbol@.base_asset,
        quote_asset: c.symbol@.quote_asset,
        timeframe: c.timeframe,
        open_millis: c.open_time@,
        close_millis: c.close_time@,
        open_price: c.open_price,
        close_price: c.close_price,
        low_price: c.low_price,
        high_price: c.high_price,
        volume: c.volume,
    }
}

/// The row a bar is encoded to: canonical short strings for the enum
/// columns, and the timestamps cut to whole seconds.
pub open spec fn row_view_of(c: Candlestick) -> CandlestickRowView {
    CandlestickRowView {
        exchange_type: exchange_chars(c.symbol@.exchange_type),
        base_asset: c.symbol@.base_asset,
        quote_asset: c.symbol@.quote_asset,
        timeframe: timeframe_chars(c.timeframe),
        open_time: c.open_time@ / 1000,
        close_time: c.close_time@ / 1000,
        open_price: c.open_price,
        close_price: c.close_price,
        low_price: c.low_price,
        high_price: c.high_price,
        volume: c.volume,
    }
}

/// What a row decodes to, if anything: its enum columns must parse
/// and its timestamps must lie in the representable range; the
/// second-precision times come back as milliseconds.
pub open spec fn decoded_fields(rv: CandlestickRowView) -> Option<BarFields> {
    match (exchange_of_chars(rv.exchange_type), timeframe_of_chars(rv.timeframe)) {
        (Some(e), Some(t)) => if MIN_UNIX_SECONDS <= rv.open_time <= MAX_UNIX_SECONDS
            && MIN_UNIX_SECONDS <= rv.close_time <= MAX_UNIX_SECONDS {
            Some(
            BarFields {
                exchange_type: e,
                base_asset: rv.base_asset,
                quote_asset: rv.quote_asset,
                timeframe: t,
                open_millis: rv.open_time * 1000,
                close_millis: rv.close_time * 1000,
                open_price: rv.open_price,
                close_price: rv.close_price,
                low_price: rv.low_price,
                high_price: rv.high_price,
                volume: rv.volume,
            },
        )
        } else {
            None
        },
        _ => None,
    }
}

impl CandlestickRow {
    /// Encodes a bar as its storage row.
    pub fn from_candlestick(c: &Candlestick) -> (r: CandlestickRow)
        requires
            c.times_valid(),
        ensures
            r@ == row_view_of(*c),
    {
        CandlestickRow {
            exchange_type: String::from_str(c.symbol.exchange_type.as_str()),
            base_asset: c.symbol.base_asset.clone(),
            quote_asset: c.symbol.quote_asset.clone(),
            timeframe: String::from_str(c.timeframe.as_str()),
            open_time: c.open_time.unix_timestamp(),
            close_time: c.close_time.unix_timestamp(),
            open_price: c.open_price,
            close_price: c.close_price,
            low_price: c.low_price,
            high_price: c.high_price,
            volume: c.volume,
        }
    }

    /// Decodes a stored row back into a bar, interning its instrument
    /// in `pool`. Succeeds exactly when the row's enum columns parse
    /// and its timestamps lie in the representable range.
    pub fn to_candlestick(self, pool: &SymbolPool) -> (r: Result<
        Candlestick,
        ClickhouseRepositoryError,
    >)
        ensures
            r is Ok <==> decoded_fields(self@) is Some,
            r matches Ok(c) ==> decoded_fields(self@) == Some(fields_of_candle(c))
                && c.times_valid(),
    {
        let exchange_type = match ExchangeType::parse_short(self.exchange_type.as_str()) {
            Some(e) => e,
            None => {
                return Err(
                    ClickhouseRepositoryError::ParsingError(crate::errors::VariantNotFoundError),
                );
            },
        };
        let timeframe = match Timeframe::parse_short(self.timeframe.as_str()) {
            Some(t) => t,
            None => {
                return Err(
                    ClickhouseRepositoryError::ParsingError(crate::errors::VariantNotFoundError),
                );
            },
        };
        if self.open_time < MIN_UNIX_SECONDS || self.open_time > MAX_UNIX_SECONDS {
            return Err(
                ClickhouseRepositoryError::UnexpectedResult(
                    String::from_str("open_time out of range"),
                ),
            );
        }
        if self.close_time < MIN_UNIX_SECONDS || self.close_time > MAX_UNIX_SECONDS {
            return Err(
                ClickhouseRepositoryError::UnexpectedResult(
                    String::from_str("close_time out of range"),
                ),
            );
        }
        let symbol = Symbol::from_pool(pool, exchange_type, self.base_asset, self.quote_asset);
        Ok(
            Candlestick {
                symbol,
                timeframe,
                open_time: Timestamp { millis: self.open_time * 1000 },
                close_time: Timestamp { millis: self.close_time * 1000 },
                open_price: self.open_price,
                close_price: self.close_price,
                low_price: self.low_price,
                high_price: self.high_price,
                volume: self.volume,
            },
        )
    }
}

/// Encoding a bar to its storage row and decoding the row back yields
/// field-for-field equality, timestamps included, whenever the bar's
/// timestamps are whole seconds — the precision the storage keeps.
pub proof fn lemma_row_codec_roundtrip(c: Candlestick)
    requires
        c.times_valid(),
        c.open_time@ % 1000 == 0,
        c.close_time@ % 1000 == 0,
    ensures
        decoded_fields(row_view_of(c)) == Some(fields_of_candle(c)),
{
    crate::exchange_type::lemma_exchange_str_roundtrip(c.symbol@.exchange_type);
    crate::timeframe::lemma_timeframe_str_roundtrip(c.timeframe);
    vstd::arithmetic::div_mod::lemma_fundamental_div_mod(c.open_time@, 1000);
    vstd::arithmetic::div_mod::lemma_fundamental_div_mod(c.close_time@, 1000);
}


/// Whether `y` is a Gregorian leap year.
pub open spec fn is_leap_year(y: int) -> bool {
    (y % 4 == 0 && y % 100 != 0) || y % 400 == 0
}

/// Days in Gregorian year `y`.
pub open spec fn days_in_year(y: int) -> int {
    if is_leap_year(y) {
        366
    } else {
        365
    }
}

/// Days in month `m` of Gregorian year `y`.
pub open spec fn days_in_month(y: int, m: int) -> int {
    if m == 2 {
        if is_leap_year(y) {
            29
        } else {
            28
        }
    } else if m == 4 || m == 6 || m == 9 || m == 11 {
        30
    } else {
        31
    }
}

/// Walks whole years forward from year `y`: the year that day `n`
/// (counted from the start of `y`) falls in, and the day's offset
/// into that year.
pub open spec fn year_scan(y: int, n: int) -> (int, int)
    decreases n,
{
    if n < days_in_year(y) {
        (y, n)
    } else {
        year_scan(y + 1, n - days_in_year(y))
    }
}

/// Walks whole months forward from month `m` of year `y`: the month
/// that day `n` (counted from the start of `m`) falls in, and the
/// day's offset into that month.
pub open spec fn month_scan(y: int, m: int, n: int) -> (int, int)
    decreases n,
{
    if n < days_in_month(y, m) {
        (m, n)
    } else {
        month_scan(y, m + 1, n - days_in_month(y, m))
    }
}

/// The civil date (year, month, day-of-month) of day `n` counted from
/// the Unix epoch.
pub open spec fn civil_from_day(n: int) -> (int, int, int) {
    let ys = year_scan(1970, n);
    let ms = month_scan(ys.0, 1, ys.1);
    (ys.0, ms.0, ms.1 + 1)
}

/// One decimal digit as characters; values past nine saturate at
/// nine, which no reachable digit produces.
pub open spec fn digit_chars(d: int) -> Seq<char> {
    if d == 0 {
        "0"@
    } else if d == 1 {
        "1"@
    } else if d == 2 {
        "2"@
    } else if d == 3 {
        "3"@
    } else if d == 4 {
        "4"@
    } else if d == 5 {
        "5"@
    } else if d == 6 {
        "6"@
    } else if d == 7 {
        "7"@
    } else if d == 8 {
        "8"@
    } else {
        "9"@
    }
}

/// Two decimal digits, zero-padded.
pub open spec fn two_digit_chars(n: int) -> Seq<char> {
    digit_chars(n / 10) + digit_chars(n % 10)
}

/// Four decimal digits, zero-padded.
pub open spec fn four_digit_chars(n: int) -> Seq<char> {
    two_digit_chars(n / 100) + two_digit_chars(n % 100)
}

/// The store's date-time literal for `secs` seconds since the epoch:
/// `YYYY-MM-DD hh:mm:ss` in UTC.
pub open spec fn clickhouse_date_chars(secs: int) -> Seq<char> {
    let n = secs / 86400;
    let sod = secs % 86400;
    let c = civil_from_day(n);
    four_digit_chars(c.0) + "-"@ + two_digit_chars(c.1) + "-"@ + two_digit_chars(c.2) + " "@
        + two_digit_chars(sod / 3600) + ":"@ + two_digit_chars((sod / 60) % 60) + ":"@
        + two_digit_chars(sod % 60)
}

/// Days in year `y`, decided.
fn days_in_year_exec(y: i64) -> (r: i64)
    requires
        0 <= y,
    ensures
        r == days_in_year(y as int),
{
    if (y % 4 == 0 && y % 100 != 0) || y % 400 == 0 {
        366
    } else {
        365
    }
}

/// Days in month `m` of year `y`, decided.
fn days_in_month_exec(y: i64, m: i64) -> (r: i64)
    requires
        0 <= y,
    ensures
        r == days_in_month(y as int, m as int),
{
    if m == 2 {
        if (y % 4 == 0 && y % 100 != 0) || y % 400 == 0 {
            29
        } else {
            28
        }
    } else if m == 4 || m == 6 || m == 9 || m == 11 {
        30
    } else {
        31
    }
}

/// One decimal digit as a string.
fn digit_str(d: i64) -> (r: &'static str)
    requires
        0 <= d,
    ensures
        r@ == digit_chars(d as int),
{
    if d == 0 {
        "0"
    } else if d == 1 {
        "1"
    } else if d == 2 {
        "2"
    } else if d == 3 {
        "3"
    } else if d == 4 {
        "4"
    } else if d == 5 {
        "5"
    } else if d == 6 {
        "6"
    } else if d == 7 {
        "7"
    } else if d == 8 {
        "8"
    } else {
        "9"
    }
}

/// Appends two zero-padded decimal digits.
fn push_two_digits(s: &mut String, n: i64)
    requires
        0 <= n,
    ensures
        final(s)@ == old(s)@ + two_digit_chars(n as int),
{
    s.append(digit_str(n / 10));
    s.append(digit_str(n % 10));
    proof {
        assert(final(s)@ =~= old(s)@ + two_digit_chars(n as int));
    }
}

/// Appends four zero-padded decimal digits.
fn push_four_digits(s: &mut String, n: i64)
    requires
        0 <= n,
    ensures
        final(s)@ == old(s)@ + four_digit_chars(n as int),
{
    push_two_digits(s, n / 100);
    push_two_digits(s, n % 100);
    proof {
        assert(final(s)@ =~= old(s)@ + four_digit_chars(n as int));
    }
}

/// Formats an instant as the store's `YYYY-MM-DD hh:mm:ss` date-time
/// literal, the form query bounds are written in.
#[verifier::loop_isolation(false)]
pub fn format_clickhouse_date(dt: Timestamp) -> (r: String)
    requires
        dt.is_valid(),
        dt@ >= 0,
    ensures
        r@ == clickhouse_date_chars(dt@ / 1000),
{
    let secs = dt.unix_timestamp();
    let days = secs / 86400;
    let sod = secs % 86400;
    let mut y: i64 = 1970;
    let mut rem: i64 = days;
    while rem >= days_in_year_exec(y)
        invariant
            1970 <= y,
            0 <= rem,
            y - 1970 <= days - rem,
            year_scan(1970, days as int) == year_scan(y as int, rem as int),
        decreases rem,
    {
        let d = days_in_year_exec(y);
        rem = rem - d;
        y = y + 1;
    }
    let mut mo: i64 = 1;
    let mut mrem: i64 = rem;
    while mrem >= days_in_month_exec(y, mo)
        invariant
            1 <= mo,
            0 <= mrem,
            mo - 1 <= rem - mrem,
            month_scan(y as int, 1, rem as int) == month_scan(y as int, mo as int, mrem as int),
        decreases mrem,
    {
        let d = days_in_month_exec(y, mo);
        mrem = mrem - d;
        mo = mo + 1;
    }
    let mut out = String::new();
    push_four_digits(&mut out, y);
    out.append("-");
    push_two_digits(&mut out, mo);
    out.append("-");
    push_two_digits(&mut out, mrem + 1);
    out.append(" ");
    push_two_digits(&mut out, sod / 3600);
    out.append(":");
    push_two_digits(&mut out, (sod / 60) % 60);
    out.append(":");
    push_two_digits(&mut out, sod % 60);
    proof {
        assert(out@ =~= clickhouse_date_chars(dt@ / 1000));
    }
    out
}


/// The rows that a chunk of per-page batches flattens to, in batch
/// order.
pub open spec fn rows_view_of_batches(chunk: Seq<Seq<Candlestick>>) -> Seq<CandlestickRowView> {
    chunk.flatten().map_values(|c: Candlestick| row_view_of(c))
}

/// Flattens a chunk of per-page batches into the rows one bulk insert
/// writes, in batch order. Tolerates empty batches.
#[verifier::loop_isolation(false)]
pub fn encode_batches(chunk: &Vec<Vec<Candlestick>>) -> (r: Vec<CandlestickRow>)
    requires
        forall|i: int, j: int|
            0 <= i < chunk@.len() && 0 <= j < chunk@[i]@.len()
                ==> (#[trigger] chunk@[i]@[j]).times_valid(),
    ensures
        r@.map_values(|row: CandlestickRow| row@) == rows_view_of_batches(
            chunk@.map_values(|b: Vec<Candlestick>| b@),
        ),
{
    let ghost bseq = chunk@.map_values(|b: Vec<Candlestick>| b@);
    let ghost rvo = |c: Candlestick| row_view_of(c);
    let ghost rview = |row: CandlestickRow| row@;
    let mut r: Vec<CandlestickRow> = Vec::new();
    let n = chunk.len();
    let mut i: usize = 0;
    proof {
        assert(bseq.subrange(0, 0) =~= Seq::<Seq<Candlestick>>::empty());
        assert(r@.map_values(rview) =~= bseq.subrange(0, 0).flatten().map_values(rvo));
    }
    while i < n
        invariant
            i <= n,
            r@.map_values(rview) == bseq.subrange(0, i as int).flatten().map_values(rvo),
        decreases n - i,
    {
        let batch = &chunk[i];
        let ghost before = bseq.subrange(0, i as int).flatten();
        let m = batch.len();
        let mut j: usize = 0;
        proof {
            assert(batch@.subrange(0, 0) =~= Seq::<Candlestick>::empty());
            assert(r@.map_values(rview) =~= (before + batch@.subrange(0, 0)).map_values(rvo));
        }
        while j < m
            invariant
                j <= m,
                r@.map_values(rview) == (before + batch@.subrange(0, j as int)).map_values(rvo),
            decreases m - j,
        {
            let ghost r0 = r@;
            let row = CandlestickRow::from_candlestick(&batch[j]);
            r.push(row);
            proof {
                let prev = before + batch@.subrange(0, j as int);
                let now = before + batch@.subrange(0, j + 1);
                assert(now =~= prev.push(batch@[j as int]));
                assert(r@ =~= r0.push(row));
                assert forall|k: int| 0 <= k < r@.len() implies r@.map_values(rview)[k]
                    == now.map_values(rvo)[k] by {
                    if k < r0.len() {
                        assert(r@.map_values(rview)[k] == rview(r0[k]));
                        assert(r0.map_values(rview)[k] == rview(r0[k]));
                        assert(r0.map_values(rview)[k] == prev.map_values(rvo)[k]);
                        assert(now.map_values(rvo)[k] == rvo(now[k]));
                        assert(now[k] == prev[k]);
                    } else {
                        assert(r@.map_values(rview)[k] == rview(row));
                        assert(now.map_values(rvo)[k] == rvo(batch@[j as int]));
                    }
                }
                assert(r@.map_values(rview) =~= now.map_values(rvo));
            }
            j = j + 1;
        }
        proof {
            assert(batch@.subrange(0, m as int) =~= batch@);
            assert(bseq.subrange(0, i + 1) =~= bseq.subrange(0, i as int).push(bseq[i as int]));
            bseq.subrange(0, i as int).lemma_flatten_push(bseq[i as int]);
            assert(r@.map_values(rview) =~= bseq.subrange(0, i + 1).flatten().map_values(rvo));
        }
        i = i + 1;
    }
    proof {
        assert(bseq.subrange(0, n as int) =~= bseq);
    }
    r
}

/// The bars the fetched rows decode to, in order, rows that fail to
/// decode dropped.
pub open spec fn decoded_ok_fields(rows: Seq<CandlestickRowView>) -> Seq<BarFields>
    decreases rows.len(),
{
    if rows.len() == 0 {
        Seq::empty()
    } else {
        let rest = decoded_ok_fields(rows.drop_last());
        match decoded_fields(rows.last()) {
            Some(f) => rest.push(f),
            None => rest,
        }
    }
}

impl CandlestickRow {
    /// An equal copy of the row.
    pub fn duplicate(&self) -> (r: CandlestickRow)
        ensures
            r@ == self@,
    {
        CandlestickRow {
            exchange_type: self.exchange_type.clone(),
            base_asset: self.base_asset.clone(),
            quote_asset: self.quote_asset.clone(),
            timeframe: self.timeframe.clone(),
            open_time: self.open_time,
            close_time: self.close_time,
            open_price: self.open_price,
            close_price: self.close_price,
            low_price: self.low_price,
            high_price: self.high_price,
            volume: self.volume,
        }
    }
}

/// Decodes fetched rows into bars in row order, interning their
/// instruments in `pool`. A row that fails to decode is dropped and
/// the rest are kept: a conversion error loses that row only.
#[verifier::loop_isolation(false)]
pub fn decode_rows(rows: &Vec<CandlestickRow>, pool: &SymbolPool) -> (r: Vec<Candlestick>)
    ensures
        r@.map_values(|c: Candlestick| fields_of_candle(c)) == decoded_ok_fields(
            rows@.map_values(|row: CandlestickRow| row@),
        ),
{
    let ghost rseq = rows@.map_values(|row: CandlestickRow| row@);
    let ghost foc = |c: Candlestick| fields_of_candle(c);
    let mut r: Vec<Candlestick> = Vec::new();
    let n = rows.len();
    let mut i: usize = 0;
    proof {
        assert(rseq.subrange(0, 0) =~= Seq::<CandlestickRowView>::empty());
        assert(r@.map_values(foc) =~= decoded_ok_fields(rseq.subrange(0, 0)));
    }
    while i < n
        invariant
            i <= n,
            r@.map_values(foc) == decoded_ok_fields(rseq.subrange(0, i as int)),
        decreases n - i,
    {
        let row = rows[i].duplicate();
        let decoded = row.to_candlestick(pool);
        proof {
            assert(rseq.subrange(0, i + 1).drop_last() =~= rseq.subrange(0, i as int));
            assert(rseq.subrange(0, i + 1).last() == rseq[i as int]);
        }
        match decoded {
            Ok(c) => {
                r.push(c);
                proof {
                    assert(r@.map_values(foc) =~= decoded_ok_fields(rseq.subrange(0, i + 1)));
                }
            },
            Err(_) => {
                proof {
                    assert(r@.map_values(foc) =~= decoded_ok_fields(rseq.subrange(0, i + 1)));
                }
            },
        }
        i = i + 1;
    }
    proof {
        assert(rseq.subrange(0, n as int) =~= rseq);
    }
    r
}

} // verus!


