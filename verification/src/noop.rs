//! The disabled (no-op) cache backend.

use vstd::prelude::*;

use crate::cache::DataCache;
use crate::date::Date;
use crate::error::DataError;
use crate::frequency::PeriodType;
use crate::metrics::KeyMetrics;
use crate::series::OhlcvSeries;
use crate::statement::FinancialStatement;
use crate::symbol::Symbol;

verus! {

/// A cache backend that stores nothing.
///
/// Every get reports a miss, every put, invalidation and clear reports
/// success, and no call has any observable effect. It satisfies the cache
/// port when caching is administratively turned off, so call sites need no
/// conditional logic.
#[derive(Clone, Copy, Debug, Default)]
pub struct NoopCache;

impl NoopCache {
    /// Creates a new no-op cache.
    pub fn new() -> (r: Self)
        ensures
            r.wf(),
    {
        NoopCache
    }
}

impl DataCache for NoopCache {
    open spec fn wf(&self) -> bool {
        true
    }

    /// Always a miss, never an error.
    fn get_ohlcv(&self, provider: &str, symbol: &Symbol, start: Date, end: Date) -> (r: Result<
        Option<OhlcvSeries>,
        DataError,
    >)
        ensures
            r matches Ok(o) && o is None,
    {
        Ok(None)
    }

    /// Reports success and stores nothing.
    fn put_ohlcv(&mut self, provider: &str, symbol: &Symbol, data: &OhlcvSeries, now: u64) -> (r:
        Result<(), DataError>)
        ensures
            r is Ok,
            *final(self) == *old(self),
    {
        Ok(())
    }

    /// Always a miss, never an error.
    fn get_financials(&self, provider: &str, symbol: &Symbol, period_type: PeriodType) -> (r:
        Result<Option<Vec<FinancialStatement>>, DataError>)
        ensures
            r matches Ok(o) && o is None,
    {
        Ok(None)
    }

    /// Reports success and stores nothing.
    fn put_financials(
        &mut self,
        provider: &str,
        symbol: &Symbol,
        statements: &[FinancialStatement],
        now: u64,
    ) -> (r: Result<(), DataError>)
        ensures
            r is Ok,
            *final(self) == *old(self),
    {
        Ok(())
    }

    /// Always a miss, never an error.
    fn get_metrics(&self, provider: &str, symbol: &Symbol, date: Date) -> (r: Result<
        Option<KeyMetrics>,
        DataError,
    >)
        ensures
            r matches Ok(o) && o is None,
    {
        Ok(None)
    }

    /// Reports success and stores nothing.
    fn put_metrics(&mut self, provider: &str, symbol: &Symbol, metrics: &KeyMetrics, now: u64) -> (
        r: Result<(), DataError>)
        ensures
            r is Ok,
            *final(self) == *old(self),
    {
        Ok(())
    }

    /// Nothing is stored, so nothing is ever removed.
    fn invalidate_stale(&mut self, ttl: u64, now: u64) -> (r: Result<usize, DataError>)
        ensures
            r matches Ok(c) && c == 0,
            *final(self) == *old(self),
    {
        Ok(0)
    }

    /// Reports success with nothing to clear.
    fn clear(&mut self) -> (r: Result<(), DataError>)
        ensures
            r is Ok,
            *final(self) == *old(self),
    {
        Ok(())
    }
}

} // verus!
