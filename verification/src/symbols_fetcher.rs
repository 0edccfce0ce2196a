//! The catalog refresher: a single worker that fetches the tradable
//! instrument catalog under a configured refresh policy, maps it into
//! canonical instruments, and republishes the latest snapshot to a
//! broadcast slot that late and existing subscribers observe.
//!
//! The worker's decisions live here: what a policy does at startup,
//! and what a fetch outcome does to the published snapshot. The fetch
//! itself and the subscriber notification run outside the library,
//! which only ever sees the decoded catalog or the fetch error.
use vstd::prelude::*;

use std::sync::Arc;

use crate::binance::{catalog_symbols_match, ExchangeInfoResponse};
use crate::http::HttpResponseError;
use crate::symbol::{SymbolPool, Symbols};

verus! {

/// When the catalog refresher fetches on its own.
#[derive(Debug, Clone, Copy, PartialEq, Eq, Structural)]
pub enum RefreshPolicy {
    /// Never fetches until explicitly told to.
    Lazy,
    /// Fetches exactly once at startup.
    OneShot,
    /// Fetches at startup and then every given interval, in
    /// milliseconds.
    Periodic(u64),
}

/// The control messages the refresher takes.
#[derive(Debug, Clone, Copy, PartialEq, Eq, Structural)]
pub enum Command {
    /// Perform one fetch-publish cycle now, whatever the policy.
    Refresh,
    /// Stop the worker.
    Shutdown,
}

/// The request for one fetch-publish cycle whose snapshot the sender
/// wants back.
#[derive(Debug, Clone, Copy, PartialEq, Eq, Structural)]
pub struct RefreshAndGet;

/// The request for a subscription to the broadcast slot.
#[derive(Debug, Clone, Copy, PartialEq, Eq, Structural)]
pub struct GetReceiver;

/// Failure of a fetch-publish cycle, reported to its requester.
#[derive(Debug, Clone, PartialEq, Eq)]
pub enum FailedToFetchSymbolsError {
    /// The catalog endpoint could not be reached or answered badly.
    Transport(HttpResponseError),
}

/// The broadcast slot: it retains only the latest snapshot — no
/// queue of historical snapshots — and holds none until the first
/// publication.
#[derive(Debug)]
pub struct CatalogSlot {
    pub latest: Option<Arc<Symbols>>,
}

/// Hands out one more handle to a published snapshot.
///
/// Relies on `Arc::clone`: the clone is one more handle to the same
/// allocation, so it carries the same snapshot.
#[verifier::external_body]
pub fn share_snapshot(s: &Arc<Symbols>) -> (r: Arc<Symbols>)
    ensures
        r == *s,
{
    Arc::clone(s)
}

/// What a refresh policy does at startup.
#[derive(Debug, Clone, Copy, PartialEq, Eq, Structural)]
pub struct StartupPlan {
    /// Whether one refresh is issued immediately.
    pub initial_refresh: bool,
    /// The repeat interval in milliseconds, when the policy repeats.
    pub interval: Option<u64>,
}

/// The startup behaviour each policy prescribes: lazy workers wait for
/// an explicit refresh, one-shot workers fetch once, periodic workers
/// fetch once and then on every interval.
pub open spec fn startup_plan_of(policy: RefreshPolicy) -> StartupPlan {
    match policy {
        RefreshPolicy::Lazy => StartupPlan { initial_refresh: false, interval: None },
        RefreshPolicy::OneShot => StartupPlan { initial_refresh: true, interval: None },
        RefreshPolicy::Periodic(d) => StartupPlan { initial_refresh: true, interval: Some(d) },
    }
}

/// The catalog refresher worker's own state: its policy and the
/// broadcast slot it publishes to.
#[derive(Debug)]
pub struct SymbolsFetcherActor {
    pub refresh_policy: RefreshPolicy,
    pub slot: CatalogSlot,
}

impl SymbolsFetcherActor {
    /// Builds a refresher with an empty broadcast slot: subscribers
    /// observe no snapshot until the first fetch-publish cycle.
    pub fn new(refresh_policy: RefreshPolicy) -> (r: SymbolsFetcherActor)
        ensures
            r.refresh_policy == refresh_policy,
            r.slot.latest is None,
    {
        SymbolsFetcherActor { refresh_policy, slot: CatalogSlot { latest: None } }
    }

    /// Decides what to do at startup, per the configured policy.
    pub fn started(&self) -> (r: StartupPlan)
        ensures
            r == startup_plan_of(self.refresh_policy),
    {
        match self.refresh_policy {
            RefreshPolicy::Lazy => StartupPlan { initial_refresh: false, interval: None },
            RefreshPolicy::OneShot => StartupPlan { initial_refresh: true, interval: None },
            RefreshPolicy::Periodic(d) => StartupPlan {
                initial_refresh: true,
                interval: Some(d),
            },
        }
    }

    /// Completes one fetch-publish cycle from the fetch's outcome. A
    /// successful fetch maps the catalog into canonical instruments
    /// via the registry, publishes the snapshot to the slot, and hands
    /// it back. A failed fetch publishes nothing — the prior snapshot
    /// stays visible to subscribers — and reports the transport error.
    pub fn apply_refresh(
        &mut self,
        pool: &SymbolPool,
        fetched: Result<ExchangeInfoResponse, HttpResponseError>,
    ) -> (r: Result<Arc<Symbols>, FailedToFetchSymbolsError>)
        ensures
            final(self).refresh_policy == old(self).refresh_policy,
            fetched matches Ok(info) ==> (r matches Ok(snap) && catalog_symbols_match(
                info.symbols@,
                snap@,
            ) && final(self).slot.latest == Some(snap)),
            fetched matches Err(e) ==> ({
                &&& *final(self) == *old(self)
                &&& r == Err::<Arc<Symbols>, FailedToFetchSymbolsError>(
                    FailedToFetchSymbolsError::Transport(e),
                )
            }),
    {
        match fetched {
            Ok(info) => {
                let symbols = info.to_symbols(pool);
                let snapshot = Arc::new(symbols);
                self.slot.latest = Some(share_snapshot(&snapshot));
                Ok(snapshot)
            },
            Err(e) => Err(FailedToFetchSymbolsError::Transport(e)),
        }
    }

    /// What a new or existing subscriber observes: no snapshot until
    /// the first publication, then the latest snapshot.
    pub fn current_snapshot(&self) -> (r: Option<Arc<Symbols>>)
        ensures
            self.slot.latest is None ==> r is None,
            self.slot.latest matches Some(s) ==> r == Some(s),
    {
        match &self.slot.latest {
            None => None,
            Some(s) => Some(share_snapshot(s)),
        }
    }
}

/// Under the lazy policy no fetch is issued at startup, so a
/// subscriber observes no snapshot until an explicit refresh; under
/// one-shot exactly one startup fetch is issued and none repeat; under
/// the periodic policy the startup fetch repeats on the interval.
pub proof fn lemma_refresh_policy_startup(policy: RefreshPolicy)
    ensures
        policy is Lazy ==> !startup_plan_of(policy).initial_refresh && startup_plan_of(
            policy,
        ).interval is None,
        policy is OneShot ==> startup_plan_of(policy).initial_refresh && startup_plan_of(
            policy,
        ).interval is None,
        policy matches RefreshPolicy::Periodic(d) ==> startup_plan_of(policy).initial_refresh
            && startup_plan_of(policy).interval == Some(d),
{
}

/// Whether a snapshot observation ends the wait for the first
/// non-empty catalog: there must be a snapshot, and it must hold at
/// least one instrument.
pub fn snapshot_ready(observed: &Option<Arc<Symbols>>) -> (r: bool)
    ensures
        r == (observed matches Some(s) && s@.len() > 0),
{
    match observed {
        Some(s) => s.len() > 0,
        None => false,
    }
}

} // verus!
