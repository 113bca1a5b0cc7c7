//! The cache port: the contract every cache backend satisfies.
//!
//! Backends are driven by explicit clock values: callers pass the current
//! time (as whole milliseconds) to the operations that record or judge an
//! entry's age, so staleness is a pure function of the stored timestamps.

use vstd::prelude::*;

use crate::date::Date;
use crate::error::DataError;
use crate::frequency::PeriodType;
use crate::metrics::KeyMetrics;
use crate::series::OhlcvSeries;
use crate::statement::FinancialStatement;
use crate::symbol::Symbol;

verus! {

/// A stored value together with its capture timestamp (milliseconds).
pub struct CacheEntry<V> {
    /// The stored value.
    pub data: V,
    /// When the value was captured, in milliseconds.
    pub cached_at: u64,
}

/// Whether an entry captured at `cached_at` is stale at `now` under `ttl`:
/// its age strictly exceeds `ttl`. An entry aged exactly `ttl` is not stale.
pub open spec fn spec_stale(cached_at: u64, ttl: u64, now: u64) -> bool {
    now > cached_at + ttl
}

impl<V> CacheEntry<V> {
    /// Whether this entry's age at `now` strictly exceeds `ttl`.
    pub fn is_stale(&self, ttl: u64, now: u64) -> (r: bool)
        ensures
            r == spec_stale(self.cached_at, ttl, now),
    {
        if now > self.cached_at {
            now - self.cached_at > ttl
        } else {
            false
        }
    }
}

/// The cache port: get/put per data kind, bulk invalidation, and a full
/// clear.
///
/// A miss is never an error: `get_*` returns `Ok(None)` on a miss. Backend
/// failures surface as [`DataError::Cache`]. Each implementation defines its
/// own well-formedness predicate `wf`, which its constructors establish and
/// all operations preserve.
pub trait DataCache: Sized {
    /// The backend's internal well-formedness.
    spec fn wf(&self) -> bool;

    /// Retrieves cached OHLCV data stored under exactly this provider,
    /// symbol and date range.
    fn get_ohlcv(&self, provider: &str, symbol: &Symbol, start: Date, end: Date) -> (r: Result<
        Option<OhlcvSeries>,
        DataError,
    >)
        requires
            self.wf(),
    ;

    /// Stores OHLCV data, capturing it at `now`.
    fn put_ohlcv(&mut self, provider: &str, symbol: &Symbol, data: &OhlcvSeries, now: u64) -> (r:
        Result<(), DataError>)
        requires
            old(self).wf(),
        ensures
            final(self).wf(),
    ;

    /// Retrieves cached financial statements for a symbol and period kind.
    fn get_financials(&self, provider: &str, symbol: &Symbol, period_type: PeriodType) -> (r:
        Result<Option<Vec<FinancialStatement>>, DataError>)
        requires
            self.wf(),
    ;

    /// Stores financial statements, capturing them at `now`. The incoming
    /// list is split by period kind; annual and quarterly statements are
    /// stored under distinct keys.
    fn put_financials(
        &mut self,
        provider: &str,
        symbol: &Symbol,
        statements: &[FinancialStatement],
        now: u64,
    ) -> (r: Result<(), DataError>)
        requires
            old(self).wf(),
        ensures
            final(self).wf(),
    ;

    /// Retrieves cached key metrics for a symbol on a specific date.
    fn get_metrics(&self, provider: &str, symbol: &Symbol, date: Date) -> (r: Result<
        Option<KeyMetrics>,
        DataError,
    >)
        requires
            self.wf(),
    ;

    /// Stores key metrics under the record's own date, capturing them at
    /// `now`.
    fn put_metrics(&mut self, provider: &str, symbol: &Symbol, metrics: &KeyMetrics, now: u64) -> (
        r: Result<(), DataError>)
        requires
            old(self).wf(),
        ensures
            final(self).wf(),
    ;

    /// Removes every entry across all namespaces whose age at `now` strictly
    /// exceeds `ttl`, and returns how many were removed.
    fn invalidate_stale(&mut self, ttl: u64, now: u64) -> (r: Result<usize, DataError>)
        requires
            old(self).wf(),
        ensures
            final(self).wf(),
    ;

    /// Unconditionally empties all namespaces.
    fn clear(&mut self) -> (r: Result<(), DataError>)
        requires
            old(self).wf(),
        ensures
            final(self).wf(),
    ;
}

} // verus!
