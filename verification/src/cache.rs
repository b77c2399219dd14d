//! The time-windowed single-slot cache: the last fetched series and the
//! timestamp of when it was fetched.

use vstd::prelude::*;

use crate::contributions::ContributionDay;
use crate::CACHE_TTL_MS;

verus! {

/// The single logical cache slot of the service. It starts empty at process
/// start and is superseded in place on each successful refresh; it never
/// holds a half-applied write (value and timestamp are replaced together).
pub struct CacheStore {
    /// The last successfully fetched series, if any.
    pub value: Option<Vec<ContributionDay>>,
    /// Epoch milliseconds of the last successful fetch; zero when nothing
    /// was ever stored or the store was invalidated.
    pub fetched_at_ms: i64,
}

/// The mathematical content of an optional stored series.
pub open spec fn series_opt_view(v: Option<Vec<ContributionDay>>) -> Option<
    Seq<ContributionDay>,
> {
    match v {
        Some(s) => Some(s@),
        None => None,
    }
}

impl CacheStore {
    /// Freshness over the store's state: the stored timestamp lies strictly
    /// inside the TTL window that ends at `now_ms`.
    pub open spec fn spec_is_fresh(self, now_ms: int) -> bool {
        self.fetched_at_ms > now_ms - CACHE_TTL_MS
    }

    /// What the store holds, as a mathematical value.
    pub open spec fn stored(self) -> Option<Seq<ContributionDay>> {
        series_opt_view(self.value)
    }

    /// A fresh store starts empty: no value, timestamp zero.
    pub fn new() -> (r: Self)
        ensures
            r.fetched_at_ms == 0,
            r.value is None,
    {
        CacheStore { value: None, fetched_at_ms: 0 }
    }

    /// True iff the stored timestamp is still within the TTL window ending
    /// at `now_ms`: strictly greater than `now_ms` minus the TTL.
    pub fn is_fresh(&self, now_ms: i64) -> (r: bool)
        requires
            now_ms >= i64::MIN + CACHE_TTL_MS,
        ensures
            r == self.spec_is_fresh(now_ms as int),
    {
        self.fetched_at_ms > now_ms - CACHE_TTL_MS
    }

    /// Returns the stored series, if any, without changing the store.
    pub fn read(&self) -> (r: Option<Vec<ContributionDay>>)
        ensures
            series_opt_view(r) == self.stored(),
    {
        match &self.value {
            Some(v) => Some(clone_series(v)),
            None => None,
        }
    }

    /// Replaces the stored series and its timestamp together.
    pub fn write(&mut self, value: Vec<ContributionDay>, at_ms: i64)
        ensures
            final(self).value == Some(value),
            final(self).fetched_at_ms == at_ms,
    {
        self.value = Some(value);
        self.fetched_at_ms = at_ms;
    }

    /// Zeroes the timestamp so that later freshness checks fail; the stored
    /// value is left as it is. Used when an inconsistent state is seen: a
    /// timestamp that claims freshness beside an absent value.
    pub fn invalidate(&mut self)
        ensures
            final(self).fetched_at_ms == 0,
            final(self).value == old(self).value,
    {
        self.fetched_at_ms = 0;
    }
}

/// Copies a series; the copy holds the same days as the original.
pub fn clone_series(v: &Vec<ContributionDay>) -> (r: Vec<ContributionDay>)
    ensures
        r@ == v@,
{
    let r = v.clone();
    proof {
        assert forall|i: int| 0 <= i < v@.len() implies r@[i] == v@[i] by {
            assert(cloned::<ContributionDay>(v@[i], r@[i]));
        }
        assert(r@ =~= v@);
    }
    r
}

} // verus!
