//! The per-request coordinator: decides between a cache hit and a refresh,
//! and applies the outcome of a refresh to the cache.

use vstd::prelude::*;

use crate::cache::CacheStore;
use crate::cache::clone_series;
use crate::contributions::ContributionDay;
use crate::CACHE_TTL_MS;

verus! {

/// Why one upstream fetch attempt failed. Both are terminal for that
/// attempt: no retry happens inside a request.
#[derive(Debug, Clone, Copy, PartialEq, Eq, Structural)]
pub enum FetchError {
    /// The network call itself failed, timed out, or yielded no body.
    Transport,
    /// The response body did not decode as the expected shape.
    Decode,
}

/// Everything a request can fail with at the coordinator boundary. All of
/// them are answered with the same opaque internal-error body; the detail
/// never reaches the HTTP caller.
#[derive(Debug, Clone, Copy, PartialEq, Eq, Structural)]
pub enum ServiceError {
    /// The upstream call could not be completed.
    Transport,
    /// The upstream response had an unexpected shape.
    Decode,
    /// The freshness flag claimed a value that was never stored.
    CacheInconsistency,
}

/// The service-level error that one fetch failure is converted to.
pub open spec fn spec_error_of(e: FetchError) -> ServiceError {
    match e {
        FetchError::Transport => ServiceError::Transport,
        FetchError::Decode => ServiceError::Decode,
    }
}

/// What the cache check decided for one request.
#[derive(Debug, PartialEq, Eq)]
pub enum CheckOutcome {
    /// The cache was fresh and held a value: respond with it.
    Hit(Vec<ContributionDay>),
    /// The cache claimed freshness but held no value: the store has been
    /// invalidated and the request fails with an internal error.
    Inconsistent,
    /// The cache was stale: the caller must fetch upstream and hand the
    /// outcome to `apply_fetch`.
    NeedsRefresh,
}

/// The decision `check_cache` owes for a given store state and instant:
/// a fresh store with a value is a hit on exactly that series; a fresh
/// store without a value is the inconsistency; a stale store needs a
/// refresh.
pub enum Decision {
    Hit(Seq<ContributionDay>),
    Inconsistent,
    NeedsRefresh,
}

impl View for CheckOutcome {
    type V = Decision;

    open spec fn view(&self) -> Decision {
        match self {
            CheckOutcome::Hit(v) => Decision::Hit(v@),
            CheckOutcome::Inconsistent => Decision::Inconsistent,
            CheckOutcome::NeedsRefresh => Decision::NeedsRefresh,
        }
    }
}

/// The decision owed for a store state at an instant.
pub open spec fn spec_decide(store: CacheStore, now_ms: int) -> Decision {
    if store.spec_is_fresh(now_ms) {
        match store.stored() {
            Some(s) => Decision::Hit(s),
            None => Decision::Inconsistent,
        }
    } else {
        Decision::NeedsRefresh
    }
}

/// The first half of a request: reads the clock's `now_ms` against the
/// store. On a fresh hit the store is untouched and the stored series is
/// returned; on the fresh-but-absent inconsistency the store is
/// invalidated (timestamp zeroed, value still absent); on a stale store
/// nothing changes and the caller must refresh.
pub fn check_cache(store: &mut CacheStore, now_ms: i64) -> (r: CheckOutcome)
    requires
        now_ms >= i64::MIN + CACHE_TTL_MS,
    ensures
        r@ == spec_decide(*old(store), now_ms as int),
        final(store).fetched_at_ms == if old(store).spec_is_fresh(now_ms as int) && old(
            store,
        ).value is None {
            0
        } else {
            old(store).fetched_at_ms
        },
        final(store).value == old(store).value,
{
    if store.is_fresh(now_ms) {
        match store.read() {
            Some(v) => CheckOutcome::Hit(v),
            None => {
                store.invalidate();
                CheckOutcome::Inconsistent
            },
        }
    } else {
        CheckOutcome::NeedsRefresh
    }
}

/// The second half of a request that had to refresh: applies the outcome
/// of the upstream fetch. A success is written into the store (value and
/// timestamp together) and answered with the fetched series; a failure
/// leaves the store exactly as it was — stale value and timestamp included,
/// so the next request retries — and is answered with the matching
/// service error.
pub fn apply_fetch(
    store: &mut CacheStore,
    now_ms: i64,
    fetched: Result<Vec<ContributionDay>, FetchError>,
) -> (r: Result<Vec<ContributionDay>, ServiceError>)
    ensures
        fetched matches Ok(series) ==> {
            &&& final(store).stored() == Some(series@)
            &&& final(store).fetched_at_ms == now_ms
            &&& r matches Ok(out) && out@ == series@
        },
        fetched matches Err(e) ==> {
            &&& *final(store) == *old(store)
            &&& r == Result::<Vec<ContributionDay>, ServiceError>::Err(spec_error_of(e))
        },
{
    match fetched {
        Ok(series) => {
            let copy = clone_series(&series);
            store.write(copy, now_ms);
            Ok(series)
        },
        Err(FetchError::Transport) => Err(ServiceError::Transport),
        Err(FetchError::Decode) => Err(ServiceError::Decode),
    }
}

/// The identity the upstream is asked about: an operator-configured
/// override always wins; the request-supplied identity is used only when
/// no override is configured.
pub fn resolve_identity(configured: &Option<String>, requested: String) -> (r: String)
    ensures
        match configured {
            Some(u) => r@ == u@,
            None => r@ == requested@,
        },
{
    match configured {
        Some(u) => u.clone(),
        None => requested,
    }
}

/// The opaque body every internal failure is answered with: the error's
/// detail never reaches the HTTP caller.
pub fn internal_error_body(e: &ServiceError) -> (r: String)
    ensures
        r@ == "internal"@,
{
    String::from_str("internal")
}

} // verus!
