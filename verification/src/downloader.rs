//! The single-flight history downloader: accepts one download command
//! at a time, fans the instrument list out under a concurrency bound,
//! paginates each instrument until a page comes back empty, paces
//! requests against the external rate budget, and watches the bounded
//! output channel's remaining capacity.
//!
//! The worker's decisions all live here as plain functions over plain
//! values: accepting or rejecting a command, planning the fan-out,
//! summarising a fetched page, choosing the next cursor, computing the
//! paced delay, and classifying channel capacity. The asynchronous
//! plumbing that carries pages and sleeps between them runs outside the
//! library and consults these functions.
use vstd::prelude::*;

use std::sync::Arc;

use crate::candlestick::Candlestick;
use crate::symbol::{filter_symbols, filtered_symbols, Symbol, SymbolFilter, Symbols};
use crate::timeframe::Timeframe;
use crate::timestamp::Timestamp;

verus! {

/// The number of bars one page requests from the klines endpoint.
pub const KLINES_PAGE_LIMIT: u16 = 1000;

/// A single-flight worker is either ready for a command or busy with
/// one. A command arriving while busy is rejected, never queued.
#[derive(Debug, Clone, Copy, PartialEq, Eq, Structural)]
pub enum Status {
    Ready,
    Busy,
}

/// Rejection of a download command by a busy worker. A normal,
/// synchronously returned outcome: callers retry later.
#[derive(Debug, Clone, Copy, PartialEq, Eq, Structural)]
pub enum DownloadHistoryError {
    ActorIsBusy,
}

/// The control messages a downloader worker takes besides download
/// commands.
#[derive(Debug, Clone, Copy, PartialEq, Eq, Structural)]
pub enum Command {
    Shutdown,
}

/// One unit of download work: which instruments, at which granularity,
/// from when, filtered how. A plain value that can be cloned into the
/// worker and re-derived for a retry without external state.
#[derive(Debug, Clone)]
pub struct DownloadCandlesticks {
    pub symbols: Arc<Symbols>,
    pub timeframe: Timeframe,
    pub start_date: Timestamp,
    pub filter: SymbolFilter,
}

/// Per-page metadata: observed round-trip latency, number of bars the
/// page produced, and the last bar's close time, which becomes the next
/// page's cursor. Not persisted.
#[derive(Debug, Clone, Copy, PartialEq, Eq, Structural)]
pub struct FetchReport {
    pub latency: u16,
    pub produced_count: usize,
    pub last_element_date: Option<Timestamp>,
}

/// The report a page of `bars` fetched in `latency` milliseconds gives
/// rise to.
pub open spec fn page_report(bars: Seq<Candlestick>, latency: u16) -> FetchReport {
    FetchReport {
        latency,
        produced_count: bars.len() as usize,
        last_element_date: if bars.len() == 0 {
            None
        } else {
            Some(bars.last().close_time)
        },
    }
}

impl FetchReport {
    /// Summarises one fetched page.
    pub fn from_page(bars: &Vec<Candlestick>, latency: u16) -> (r: FetchReport)
        ensures
            r == page_report(bars@, latency),
    {
        let count = bars.len();
        let last_element_date = if count == 0 {
            None
        } else {
            Some(bars[count - 1].close_time)
        };
        FetchReport { latency, produced_count: count, last_element_date }
    }
}

/// The cursor the next page starts from, if pagination continues: it
/// continues exactly when the page produced at least one bar, and then
/// starts from the report's last close time.
pub open spec fn next_cursor(report: FetchReport) -> Option<Timestamp> {
    if report.produced_count == 0 {
        None
    } else {
        report.last_element_date
    }
}

/// Decides whether pagination continues after a page, and from where.
pub fn advance_cursor(report: &FetchReport) -> (r: Option<Timestamp>)
    ensures
        r == next_cursor(*report),
{
    if report.produced_count == 0 {
        None
    } else {
        report.last_element_date
    }
}

/// Pagination for an instrument stops exactly when a page yields zero
/// bars, and otherwise continues from the last bar's close time: the
/// report of an empty page yields no next cursor, and the report of a
/// non-empty page yields exactly the page's last close time.
pub proof fn lemma_pagination_termination(bars: Seq<Candlestick>, latency: u16)
    requires
        bars.len() <= usize::MAX,
    ensures
        next_cursor(page_report(bars, latency)) is None <==> bars.len() == 0,
        bars.len() > 0 ==> next_cursor(page_report(bars, latency)) == Some(bars.last().close_time),
{
}

/// The delay inserted after forwarding a page: the external rate budget
/// amortised over the concurrent paginators, less the time the request
/// already took, floored at zero.
pub open spec fn paced_delay_millis(max_delay: int, observed_latency: int) -> int {
    if observed_latency >= max_delay {
        0
    } else {
        max_delay - observed_latency
    }
}

/// Computes the inter-page delay.
pub fn paced_delay(max_delay: u64, observed_latency: u64) -> (delay: u64)
    ensures
        delay == paced_delay_millis(max_delay as int, observed_latency as int),
{
    if observed_latency >= max_delay {
        0
    } else {
        max_delay - observed_latency
    }
}

/// The computed inter-page delay is never negative, and equals exactly
/// the rate budget times the concurrency bound less the observed
/// latency, floored at zero.
pub proof fn lemma_rate_pacing_floor(budget: int, concurrency: int, observed_latency: int)
    requires
        budget >= 0,
        concurrency >= 0,
        observed_latency >= 0,
    ensures
        paced_delay_millis(budget * concurrency, observed_latency) >= 0,
        paced_delay_millis(budget * concurrency, observed_latency) >= budget * concurrency
            - observed_latency,
        paced_delay_millis(budget * concurrency, observed_latency) == 0 || paced_delay_millis(
            budget * concurrency,
            observed_latency,
        ) == budget * concurrency - observed_latency,
{
}

/// The observability signal a sender's remaining capacity calls for.
#[derive(Debug, Clone, Copy, PartialEq, Eq, Structural)]
pub enum BackpressureSignal {
    /// Remaining capacity fell below 30% of the buffer: the consumer is
    /// slow enough to warn about.
    SlowConsumer,
    /// Remaining capacity fell below 50% of the buffer: worth an
    /// informational note.
    Note,
}

/// The signal that remaining capacity `capacity` of a buffer of size
/// `buffer` calls for. Observability only: it throttles nothing.
pub open spec fn capacity_signal(capacity: int, buffer: int) -> Option<BackpressureSignal> {
    if capacity * 10 < buffer * 3 {
        Some(BackpressureSignal::SlowConsumer)
    } else if capacity * 10 < buffer * 5 {
        Some(BackpressureSignal::Note)
    } else {
        None
    }
}

/// Classifies the output channel's remaining capacity before a send.
pub fn assess_capacity(capacity: usize, buffer: usize) -> (r: Option<BackpressureSignal>)
    ensures
        r == capacity_signal(capacity as int, buffer as int),
{
    let cap10: u128 = capacity as u128 * 10;
    if cap10 < buffer as u128 * 3 {
        Some(BackpressureSignal::SlowConsumer)
    } else if cap10 < buffer as u128 * 5 {
        Some(BackpressureSignal::Note)
    } else {
        None
    }
}

/// Everything the worker decides about one fetched page: its report,
/// the paced delay to sleep afterwards, whether and where pagination
/// continues, and what the channel capacity calls for.
#[derive(Debug, Clone, Copy, PartialEq, Eq, Structural)]
pub struct PageOutcome {
    pub report: FetchReport,
    pub delay_millis: u64,
    pub next_cursor: Option<Timestamp>,
    pub backpressure: Option<BackpressureSignal>,
}

/// Works one fetched page out: summarises it, computes the paced delay
/// from the observed latency, decides whether pagination continues, and
/// classifies the channel's remaining capacity.
pub fn process_page(
    bars: &Vec<Candlestick>,
    latency: u16,
    max_delay: u64,
    capacity: usize,
    buffer: usize,
) -> (r: PageOutcome)
    ensures
        r.report == page_report(bars@, latency),
        r.delay_millis == paced_delay_millis(max_delay as int, latency as int),
        r.next_cursor == next_cursor(r.report),
        r.backpressure == capacity_signal(capacity as int, buffer as int),
{
    let report = FetchReport::from_page(bars, latency);
    let delay_millis = paced_delay(max_delay, latency as u64);
    let cursor = advance_cursor(&report);
    let backpressure = assess_capacity(capacity, buffer);
    PageOutcome { report, delay_millis, next_cursor: cursor, backpressure }
}

/// The plan a downloader hands its supervised tasks when it accepts a
/// command: the filtered, ordered work list, the recorded size for
/// progress logging, and the pacing and buffering parameters the tasks
/// work under.
#[derive(Debug)]
pub struct DownloadPlan {
    pub work_list: Vec<Arc<Symbol>>,
    pub symbols_count: usize,
    pub timeframe: Timeframe,
    pub start_date: Timestamp,
    pub max_delay: u64,
    pub concurrency: usize,
    pub downstream_buffer: usize,
}

/// The single-flight downloader worker's own state. Its fields are
/// mutated only by its serialized message handling; the work it plans
/// runs as supervised tasks outside the library.
#[derive(Debug)]
pub struct CandlesticksDownloaderActor {
    pub downstream_buffer: usize,
    pub concurrency: usize,
    pub binance_rate_limit: usize,
    pub status: Status,
}

impl CandlesticksDownloaderActor {
    /// The configuration the worker must have been built with: the
    /// amortised delay it computes has to fit the machine word.
    pub open spec fn wf(&self) -> bool {
        self.binance_rate_limit * self.concurrency <= u64::MAX
    }

    /// Builds a worker, ready for its first command.
    pub fn new(
        downstream_buffer: usize,
        concurrency: usize,
        binance_rate_limit: usize,
    ) -> (r: CandlesticksDownloaderActor)
        requires
            binance_rate_limit * concurrency <= u64::MAX,
        ensures
            r.downstream_buffer == downstream_buffer,
            r.concurrency == concurrency,
            r.binance_rate_limit == binance_rate_limit,
            r.status is Ready,
            r.wf(),
    {
        CandlesticksDownloaderActor {
            downstream_buffer,
            concurrency,
            binance_rate_limit,
            status: Status::Ready,
        }
    }

    /// Takes one download command. A ready worker turns busy and plans
    /// the work: the command's instruments filtered in order, and the
    /// amortised per-page delay of rate budget times concurrency bound.
    /// A busy worker rejects the command unchanged — the in-flight
    /// work is not affected.
    pub fn handle(&mut self, msg: &DownloadCandlesticks) -> (r: Result<
        DownloadPlan,
        DownloadHistoryError,
    >)
        requires
            old(self).wf(),
        ensures
            final(self).wf(),
            old(self).status is Busy ==> *final(self) == *old(self) && r == Err::<
                DownloadPlan,
                DownloadHistoryError,
            >(DownloadHistoryError::ActorIsBusy),
            old(self).status is Ready ==> ({
                &&& final(self).status is Busy
                &&& final(self).downstream_buffer == old(self).downstream_buffer
                &&& final(self).concurrency == old(self).concurrency
                &&& final(self).binance_rate_limit == old(self).binance_rate_limit
                &&& r matches Ok(plan) && ({
                    &&& plan.work_list@ == filtered_symbols(msg.symbols@, msg.filter)
                    &&& plan.symbols_count == plan.work_list@.len()
                    &&& plan.timeframe == msg.timeframe
                    &&& plan.start_date == msg.start_date
                    &&& plan.max_delay == old(self).binance_rate_limit * old(self).concurrency
                    &&& plan.concurrency == old(self).concurrency
                    &&& plan.downstream_buffer == old(self).downstream_buffer
                })
            }),
    {
        match self.status {
            Status::Busy => Err(DownloadHistoryError::ActorIsBusy),
            Status::Ready => {
                let work_list = filter_symbols(&msg.symbols, &msg.filter);
                let symbols_count = work_list.len();
                let max_delay = (self.binance_rate_limit as u64) * (self.concurrency as u64);
                let plan = DownloadPlan {
                    work_list,
                    symbols_count,
                    timeframe: msg.timeframe,
                    start_date: msg.start_date,
                    max_delay,
                    concurrency: self.concurrency,
                    downstream_buffer: self.downstream_buffer,
                };
                self.status = Status::Busy;
                Ok(plan)
            },
        }
    }

    /// Marks the worker ready again, once all supervised pagination
    /// tasks have finished. Nothing else changes.
    pub fn finish_work(&mut self)
        ensures
            final(self).status is Ready,
            final(self).downstream_buffer == old(self).downstream_buffer,
            final(self).concurrency == old(self).concurrency,
            final(self).binance_rate_limit == old(self).binance_rate_limit,
    {
        self.status = Status::Ready;
    }
}

} // verus!
