//! Library-wide laws about freshness, refresh outcomes and repeated reads,
//! stated and proved over the cache model.

use vstd::prelude::*;

use crate::cache::CacheStore;
use crate::contributions::ContributionDay;
use crate::coordinator::Decision;
use crate::coordinator::spec_decide;
use crate::render::spec_series_json;
use crate::CACHE_TTL_MS;

verus! {

/// A store holding series `s`, for any request instant strictly before the
/// timestamp plus the TTL, decides a hit on exactly `s`: within the window
/// the cached series is served unmodified and no refresh — hence no
/// upstream call — is decided.
pub proof fn lemma_fresh_window_serves_cached(store: CacheStore, now_ms: int, s: Seq<
    ContributionDay,
>)
    requires
        store.stored() == Some(s),
        now_ms < store.fetched_at_ms + CACHE_TTL_MS,
    ensures
        store.spec_is_fresh(now_ms),
        spec_decide(store, now_ms) == Decision::Hit(s),
{
}

/// Right after a successful refresh is written at `now_ms` — timestamp set
/// to `now_ms`, value set to the fetched series `s` — the store is fresh
/// and decides a hit on `s`.
pub proof fn lemma_refresh_success_then_fresh(store: CacheStore, now_ms: int, s: Seq<
    ContributionDay,
>)
    requires
        store.fetched_at_ms == now_ms,
        store.stored() == Some(s),
    ensures
        store.spec_is_fresh(now_ms),
        spec_decide(store, now_ms) == Decision::Hit(s),
{
}

/// A store whose timestamp is zero — never written, or invalidated after
/// the fresh-but-absent inconsistency — is stale at every instant from one
/// TTL after the epoch on, and decides a refresh, not a hit: an empty
/// cache stays empty and not-fresh after a failed fetch, and an
/// invalidated store does not repeat the inconsistency on the next check.
pub proof fn lemma_zeroed_timestamp_is_stale(store: CacheStore, now_ms: int)
    requires
        store.fetched_at_ms == 0,
        now_ms >= CACHE_TTL_MS,
    ensures
        !store.spec_is_fresh(now_ms),
        spec_decide(store, now_ms) == Decision::NeedsRefresh,
{
}

/// The body a decision is answered with when it succeeds: the rendered
/// JSON of the series it serves; the failing decisions carry no body.
pub open spec fn spec_decision_body(d: Decision) -> Option<Seq<char>> {
    match d {
        Decision::Hit(s) => Some(spec_series_json(s)),
        Decision::Inconsistent => None,
        Decision::NeedsRefresh => None,
    }
}

/// Reads are idempotent down to the byte: with no intervening write, two
/// reads of one store state inside the TTL window make the same decision,
/// and the rendered JSON body of a hit — a pure function of the served
/// series — is identical for both.
pub proof fn lemma_repeated_reads_byte_identical(store: CacheStore, t1: int, t2: int)
    requires
        store.spec_is_fresh(t1),
        store.spec_is_fresh(t2),
    ensures
        spec_decide(store, t1) == spec_decide(store, t2),
        spec_decision_body(spec_decide(store, t1)) == spec_decision_body(spec_decide(store, t2)),
{
}

/// The boundary instant — timestamp plus TTL exactly — is already stale:
/// freshness is a strict comparison, exclusive of the boundary.
pub proof fn lemma_boundary_is_stale(store: CacheStore)
    ensures
        !store.spec_is_fresh(store.fetched_at_ms + CACHE_TTL_MS),
{
}

} // verus!
