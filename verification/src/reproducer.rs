//! The single-flight history replayer: steps a time range in fixed
//! increments, pulling already-persisted bars per increment and
//! streaming them out in order. A storage error skips its window; the
//! first window that yields zero bars ends the replay entirely.
//!
//! As with the downloader, the worker's decisions live here as plain
//! functions: accepting or rejecting a command, laying the windows out,
//! and deciding what one window's fetch outcome leads to. The storage
//! reads themselves run outside the library.
use vstd::prelude::*;

use crate::candlestick::Candlestick;
use crate::downloader::Status;
use crate::timeframe::Timeframe;
use crate::timestamp::{Timestamp, MAX_UNIX_SECONDS};

verus! {

/// Rejection of a replay command by a busy worker. A normal,
/// synchronously returned outcome: callers retry later.
#[derive(Debug, Clone, Copy, PartialEq, Eq, Structural)]
pub enum ReproduceHistoryError {
    ActorIsBusy,
}

/// One unit of replay work: which granularities to read, over which
/// closed date range, stepped how far per window. A plain value.
#[derive(Debug, Clone)]
pub struct ProduceCandlesticks {
    pub timeframes: Vec<Timeframe>,
    pub start_date: Timestamp,
    pub end_date: Timestamp,
    /// Window width in milliseconds; one day for the standard replay.
    pub step: i64,
}

/// Whether `ws` is exactly the replay window layout for the given
/// range and step: window `k` spans
/// `[start + k*step, start + (k+1)*step)`, every window starts before
/// `end`, and the windows run out exactly when the next one would
/// start at or past `end`.
pub open spec fn is_window_plan(
    ws: Seq<(Timestamp, Timestamp)>,
    start: int,
    end: int,
    step: int,
) -> bool {
    &&& forall|k: int|
        0 <= k < ws.len() ==> (#[trigger] ws[k]).0@ == start + k * step && ws[k].1@ == start + (k
            + 1) * step
    &&& forall|k: int| 0 <= k < ws.len() ==> (#[trigger] ws[k]).0@ < end
    &&& start + ws.len() * step >= end
}

/// Lays the replay windows out for a range and a positive step: from
/// `start`, each window one step wide, as long as the window still
/// starts before `end`.
#[verifier::loop_isolation(false)]
pub fn replay_windows(start: Timestamp, end: Timestamp, step: i64) -> (r: Vec<
    (Timestamp, Timestamp),
>)
    requires
        start.is_valid(),
        end.is_valid(),
        0 < step <= MAX_UNIX_SECONDS * 1000,
    ensures
        is_window_plan(r@, start@, end@, step as int),
{
    let mut r: Vec<(Timestamp, Timestamp)> = Vec::new();
    let mut current: i64 = start.millis;
    proof {
        assert(r@.len() * step == 0) by (nonlinear_arith)
            requires
                r@.len() == 0,
        ;
    }
    if current >= end.millis {
        return r;
    }
    while current < end.millis
        invariant
            r@.len() * step == current - start.millis,
            current >= start.millis,
            current <= end.millis + step,
            forall|k: int|
                0 <= k < r@.len() ==> (#[trigger] r@[k]).0@ == start@ + k * step && r@[k].1@
                    == start@ + (k + 1) * step,
            forall|k: int| 0 <= k < r@.len() ==> (#[trigger] r@[k]).0@ < end@,
        decreases end.millis + step - current,
    {
        let next: i64 = current + step;
        let ghost len0 = r@.len() as int;
        r.push((Timestamp { millis: current }, Timestamp { millis: next }));
        proof {
            assert((len0 + 1) * step == len0 * step + step) by (nonlinear_arith);
        }
        current = next;
    }
    proof {
        assert(r@.len() * step == current - start.millis);
    }
    r
}

/// What the replayer plans when it accepts a command: the window
/// layout, the granularities to read, and the output buffering.
#[derive(Debug)]
pub struct ReplayPlan {
    pub windows: Vec<(Timestamp, Timestamp)>,
    pub timeframes: Vec<Timeframe>,
    pub prefetch_buffer: usize,
}

/// What one window's storage fetch leads to.
#[derive(Debug, Clone, Copy, PartialEq, Eq, Structural)]
pub enum ReplayDecision {
    /// The fetch failed: log it, produce nothing for this window, and
    /// continue with the next window.
    Skip,
    /// The window held no bars: end of history, stop replaying.
    Stop,
    /// The window held bars: emit them with the window's start, then
    /// continue.
    Emit,
}

/// Decides what one window's fetch outcome leads to: an error skips
/// the window, an empty window stops the replay, and a non-empty
/// window is emitted.
pub fn replay_step<E>(fetched: &Result<Vec<Candlestick>, E>) -> (r: ReplayDecision)
    ensures
        fetched matches Err(_) ==> r is Skip,
        fetched matches Ok(bars) && bars@.len() == 0 ==> r is Stop,
        fetched matches Ok(bars) && bars@.len() > 0 ==> r is Emit,
{
    match fetched {
        Err(_) => ReplayDecision::Skip,
        Ok(bars) => {
            if bars.len() == 0 {
                ReplayDecision::Stop
            } else {
                ReplayDecision::Emit
            }
        },
    }
}

/// The single-flight replayer worker's own state.
#[derive(Debug)]
pub struct CandlesticksReproducerActor {
    pub prefetch_buffer: usize,
    pub status: Status,
}

impl CandlesticksReproducerActor {
    /// Builds a worker, ready for its first command.
    pub fn new(prefetch_buffer: usize) -> (r: CandlesticksReproducerActor)
        ensures
            r.prefetch_buffer == prefetch_buffer,
            r.status is Ready,
    {
        CandlesticksReproducerActor { prefetch_buffer, status: Status::Ready }
    }

    /// Takes one replay command. A ready worker turns busy and lays
    /// out the windows; a busy worker rejects the command unchanged —
    /// the in-flight replay is not affected.
    pub fn handle(&mut self, msg: &ProduceCandlesticks) -> (r: Result<
        ReplayPlan,
        ReproduceHistoryError,
    >)
        requires
            msg.start_date.is_valid(),
            msg.end_date.is_valid(),
            0 < msg.step <= MAX_UNIX_SECONDS * 1000,
        ensures
            old(self).status is Busy ==> *final(self) == *old(self) && r == Err::<
                ReplayPlan,
                ReproduceHistoryError,
            >(ReproduceHistoryError::ActorIsBusy),
            old(self).status is Ready ==> ({
                &&& final(self).status is Busy
                &&& final(self).prefetch_buffer == old(self).prefetch_buffer
                &&& r matches Ok(plan) && ({
                    &&& is_window_plan(
                        plan.windows@,
                        msg.start_date@,
                        msg.end_date@,
                        msg.step as int,
                    )
                    &&& plan.timeframes@ == msg.timeframes@
                    &&& plan.prefetch_buffer == old(self).prefetch_buffer
                })
            }),
    {
        match self.status {
            Status::Busy => Err(ReproduceHistoryError::ActorIsBusy),
            Status::Ready => {
                let windows = replay_windows(msg.start_date, msg.end_date, msg.step);
                let plan = ReplayPlan {
                    windows,
                    timeframes: msg.timeframes.clone(),
                    prefetch_buffer: self.prefetch_buffer,
                };
                self.status = Status::Busy;
                Ok(plan)
            },
        }
    }

    /// Marks the worker ready again once the replay loop has ended.
    pub fn finish_work(&mut self)
        ensures
            final(self).status is Ready,
            final(self).prefetch_buffer == old(self).prefetch_buffer,
    {
        self.status = Status::Ready;
    }
}

} // verus!
