//! Data provider registry: cache-first lookup with ordered fallback.
//!
//! The registry holds ordered lists of capability-typed sources (the
//! registration order is the fallback priority) plus zero-or-one cache
//! backend, and arbitrates each request: consult the cache under every
//! registered source's identity, then try the sources in order until the
//! first succeeds, writing the result through to the cache best-effort.
//!
//! Clock values (`now`, whole milliseconds) are supplied by the caller and
//! passed on to the cache for capture timestamps.

use vstd::prelude::*;

use crate::cache::DataCache;
use crate::date::Date;
use crate::error::DataError;
use crate::frequency::{DataFrequency, PeriodType};
use crate::metrics::KeyMetrics;
use crate::provider::{
    DataProvider, FundamentalDataProvider, PriceDataProvider, ReferenceDataProvider,
    TickDataProvider,
};
use crate::series::OhlcvSeries;
use crate::statement::FinancialStatement;
use crate::symbol::Symbol;

verus! {

/// Absorbs one source outcome into the fallback state: a success is handed
/// back for immediate return, a failure is recorded as the last error and
/// the iteration goes on.
fn absorb_outcome<V>(outcome: Result<V, DataError>, last_error: &mut Option<DataError>) -> (r:
    Option<V>)
    ensures
        outcome matches Ok(v) ==> r == Some(v) && *final(last_error) == *old(last_error),
        outcome matches Err(e) ==> r is None && *final(last_error) == Some(e),
{
    match outcome {
        Ok(v) => Some(v),
        Err(e) => {
            *last_error = Some(e);
            None
        },
    }
}

/// The error returned once every source has failed: the last recorded
/// failure, or a generic orchestration error in the defensive case where no
/// failure was recorded.
fn exhausted_error(last_error: Option<DataError>) -> (r: DataError)
    ensures
        last_error matches Some(e) ==> r == e,
        last_error is None ==> (r matches DataError::Other(m) && m@
            == "All providers failed with no error"@),
{
    match last_error {
        Some(e) => e,
        None => DataError::Other(String::from_str("All providers failed with no error")),
    }
}

/// Truncates a cached statement list to a requested limit; without a limit
/// the list is returned unchanged.
fn apply_limit(statements: &mut Vec<FinancialStatement>, limit: Option<usize>)
    ensures
        limit matches Some(l) ==> final(statements)@ == if l <= old(statements)@.len() {
            old(statements)@.subrange(0, l as int)
        } else {
            old(statements)@
        },
        limit is None ==> final(statements)@ == old(statements)@,
{
    if let Some(l) = limit {
        statements.truncate(l);
    }
}

/// Registry for managing multiple data providers with automatic fallback.
///
/// Sources are registered per capability; registration order is fallback
/// priority and is never reordered. The registry is built once at startup
/// and immutable thereafter except for the state inside the backends and
/// sources themselves.
pub struct DataProviderRegistry<C, P, F, T, R> {
    price_providers: Vec<P>,
    fundamental_providers: Vec<F>,
    tick_providers: Vec<T>,
    reference_providers: Vec<R>,
    cache: Option<C>,
}

impl<
    C: DataCache,
    P: PriceDataProvider,
    F: FundamentalDataProvider,
    T: TickDataProvider,
    R: ReferenceDataProvider,
> DataProviderRegistry<C, P, F, T, R> {
    /// The registered price sources, in registration order.
    pub closed spec fn spec_price_providers(&self) -> Seq<P> {
        self.price_providers@
    }

    /// The registered fundamental sources, in registration order.
    pub closed spec fn spec_fundamental_providers(&self) -> Seq<F> {
        self.fundamental_providers@
    }

    /// The registered tick sources, in registration order.
    pub closed spec fn spec_tick_providers(&self) -> Seq<T> {
        self.tick_providers@
    }

    /// The registered reference sources, in registration order.
    pub closed spec fn spec_reference_providers(&self) -> Seq<R> {
        self.reference_providers@
    }

    /// The configured cache backend, if any.
    pub closed spec fn spec_cache(&self) -> Option<C> {
        self.cache
    }

    /// The configured cache backend, if present, is well-formed.
    pub open spec fn wf(&self) -> bool {
        self.spec_cache() matches Some(c) ==> c.wf()
    }

    /// Creates a new empty registry with no cache.
    pub fn new() -> (r: Self)
        ensures
            r.wf(),
            r.spec_price_providers().len() == 0,
            r.spec_fundamental_providers().len() == 0,
            r.spec_tick_providers().len() == 0,
            r.spec_reference_providers().len() == 0,
            r.spec_cache() is None,
    {
        DataProviderRegistry {
            price_providers: Vec::new(),
            fundamental_providers: Vec::new(),
            tick_providers: Vec::new(),
            reference_providers: Vec::new(),
            cache: None,
        }
    }

    /// Creates a new empty registry with a cache.
    pub fn with_cache(cache: C) -> (r: Self)
        requires
            cache.wf(),
        ensures
            r.wf(),
            r.spec_price_providers().len() == 0,
            r.spec_fundamental_providers().len() == 0,
            r.spec_tick_providers().len() == 0,
            r.spec_reference_providers().len() == 0,
            r.spec_cache() == Some(cache),
    {
        DataProviderRegistry {
            price_providers: Vec::new(),
            fundamental_providers: Vec::new(),
            tick_providers: Vec::new(),
            reference_providers: Vec::new(),
            cache: Some(cache),
        }
    }

    /// Sets the cache for this registry.
    pub fn set_cache(self, cache: C) -> (r: Self)
        requires
            cache.wf(),
        ensures
            r.wf(),
            r.spec_cache() == Some(cache),
            r.spec_price_providers() == self.spec_price_providers(),
            r.spec_fundamental_providers() == self.spec_fundamental_providers(),
            r.spec_tick_providers() == self.spec_tick_providers(),
            r.spec_reference_providers() == self.spec_reference_providers(),
    {
        DataProviderRegistry { cache: Some(cache), ..self }
    }

    /// Borrows the configured cache backend, if any.
    pub fn cache_ref(&self) -> (r: &Option<C>)
        ensures
            *r == self.spec_cache(),
    {
        &self.cache
    }

    /// Registers a price data source at the end of the fallback order.
    pub fn register_price(&mut self, provider: P)
        requires
            old(self).wf(),
        ensures
            final(self).wf(),
            final(self).spec_price_providers() == old(self).spec_price_providers().push(provider),
            final(self).spec_fundamental_providers() == old(self).spec_fundamental_providers(),
            final(self).spec_tick_providers() == old(self).spec_tick_providers(),
            final(self).spec_reference_providers() == old(self).spec_reference_providers(),
            final(self).spec_cache() == old(self).spec_cache(),
    {
        self.price_providers.push(provider);
    }

    /// Registers a fundamental data source at the end of the fallback order.
    pub fn register_fundamental(&mut self, provider: F)
        requires
            old(self).wf(),
        ensures
            final(self).wf(),
            final(self).spec_fundamental_providers() == old(
                self,
            ).spec_fundamental_providers().push(provider),
            final(self).spec_price_providers() == old(self).spec_price_providers(),
            final(self).spec_tick_providers() == old(self).spec_tick_providers(),
            final(self).spec_reference_providers() == old(self).spec_reference_providers(),
            final(self).spec_cache() == old(self).spec_cache(),
    {
        self.fundamental_providers.push(provider);
    }

    /// Registers a tick data source at the end of the fallback order.
    pub fn register_tick(&mut self, provider: T)
        requires
            old(self).wf(),
        ensures
            final(self).wf(),
            final(self).spec_tick_providers() == old(self).spec_tick_providers().push(provider),
            final(self).spec_price_providers() == old(self).spec_price_providers(),
            final(self).spec_fundamental_providers() == old(self).spec_fundamental_providers(),
            final(self).spec_reference_providers() == old(self).spec_reference_providers(),
            final(self).spec_cache() == old(self).spec_cache(),
    {
        self.tick_providers.push(provider);
    }

    /// Registers a reference data source at the end of the fallback order.
    pub fn register_reference(&mut self, provider: R)
        requires
            old(self).wf(),
        ensures
            final(self).wf(),
            final(self).spec_reference_providers() == old(self).spec_reference_providers().push(
                provider,
            ),
            final(self).spec_price_providers() == old(self).spec_price_providers(),
            final(self).spec_fundamental_providers() == old(self).spec_fundamental_providers(),
            final(self).spec_tick_providers() == old(self).spec_tick_providers(),
            final(self).spec_cache() == old(self).spec_cache(),
    {
        self.reference_providers.push(provider);
    }

    /// Fetches OHLCV data: with no price source registered, fails
    /// immediately with `ProviderNotConfigured` and touches nothing; else
    /// consults the cache under each source identity in registration order,
    /// and on a full miss tries the sources in order, writing the first
    /// success through to the cache best-effort.
    pub fn fetch_ohlcv(
        &mut self,
        symbol: &Symbol,
        start: Date,
        end: Date,
        frequency: DataFrequency,
        now: u64,
    ) -> (r: Result<OhlcvSeries, DataError>)
        requires
            old(self).wf(),
        ensures
            final(self).wf(),
            old(self).spec_price_providers().len() == 0 ==> (r matches Err(e) && e
                matches DataError::ProviderNotConfigured(m) && m@
                == "No price providers registered"@ && *final(self) == *old(self)),
            final(self).spec_price_providers().len() == old(self).spec_price_providers().len(),
            final(self).spec_fundamental_providers() == old(self).spec_fundamental_providers(),
            final(self).spec_tick_providers() == old(self).spec_tick_providers(),
            final(self).spec_reference_providers() == old(self).spec_reference_providers(),
            old(self).spec_cache() is None ==> final(self).spec_cache() is None,
    {
        let n = self.price_providers.len();
        if n == 0 {
            return Err(
                DataError::ProviderNotConfigured(
                    String::from_str("No price providers registered"),
                ),
            );
        }
        // Check the cache first, under each registered source's identity.
        let mut i: usize = 0;
        #[verifier::loop_isolation(false)]
        while i < n
            invariant
                0 <= i <= n,
            decreases n - i,
        {
            if let Some(cache) = &self.cache {
                let pname = self.price_providers[i].name();
                match cache.get_ohlcv(pname, symbol, start, end) {
                    Ok(Some(series)) => {
                        return Ok(series);
                    },
                    _ => {},
                }
            }
            i += 1;
        }
        // Full cache miss: try each source in registration order.
        let mut last_error: Option<DataError> = None;
        let mut i: usize = 0;
        #[verifier::loop_isolation(false)]
        while i < n
            invariant
                0 <= i <= n,
                self.wf(),
                n == self.price_providers@.len(),
                self.fundamental_providers == old(self).fundamental_providers,
                self.tick_providers == old(self).tick_providers,
                self.reference_providers == old(self).reference_providers,
                old(self).cache is None ==> self.cache is None,
            decreases n - i,
        {
            let outcome = self.price_providers[i].fetch_ohlcv(symbol, start, end, frequency);
            match absorb_outcome(outcome, &mut last_error) {
                Some(series) => {
                    // Write through best-effort: a cache-write failure must
                    // not fail a successful live fetch.
                    let pname = self.price_providers[i].name();
                    if let Some(cache) = &mut self.cache {
                        let _ = cache.put_ohlcv(pname, symbol, &series, now);
                    }
                    return Ok(series);
                },
                None => {},
            }
            i += 1;
        }
        Err(exhausted_error(last_error))
    }

    /// Fetches OHLCV data for multiple symbols with the same per-source
    /// fallback order, but bypasses the cache entirely: bulk requests
    /// neither consult nor populate it.
    pub fn fetch_ohlcv_batch(
        &mut self,
        symbols: &[Symbol],
        start: Date,
        end: Date,
        frequency: DataFrequency,
    ) -> (r: Result<OhlcvSeries, DataError>)
        requires
            old(self).wf(),
        ensures
            final(self).wf(),
            old(self).spec_price_providers().len() == 0 ==> (r matches Err(e) && e
                matches DataError::ProviderNotConfigured(m) && m@
                == "No price providers registered"@ && *final(self) == *old(self)),
            final(self).spec_price_providers().len() == old(self).spec_price_providers().len(),
            final(self).spec_fundamental_providers() == old(self).spec_fundamental_providers(),
            final(self).spec_tick_providers() == old(self).spec_tick_providers(),
            final(self).spec_reference_providers() == old(self).spec_reference_providers(),
            final(self).spec_cache() == old(self).spec_cache(),
    {
        let n = self.price_providers.len();
        if n == 0 {
            return Err(
                DataError::ProviderNotConfigured(
                    String::from_str("No price providers registered"),
                ),
            );
        }
        let mut last_error: Option<DataError> = None;
        let mut i: usize = 0;
        #[verifier::loop_isolation(false)]
        while i < n
            invariant
                0 <= i <= n,
                self.wf(),
                n == self.price_providers@.len(),
                self.fundamental_providers == old(self).fundamental_providers,
                self.tick_providers == old(self).tick_providers,
                self.reference_providers == old(self).reference_providers,
                self.cache == old(self).cache,
            decreases n - i,
        {
            let outcome = self.price_providers[i].fetch_ohlcv_batch(symbols, start, end, frequency);
            match absorb_outcome(outcome, &mut last_error) {
                Some(series) => {
                    return Ok(series);
                },
                None => {},
            }
            i += 1;
        }
        Err(exhausted_error(last_error))
    }

    /// Fetches financial statements with cache-first lookup and ordered
    /// fallback; a limit is applied to a cache hit by truncation, and passed
    /// on to the sources.
    pub fn fetch_financials(
        &mut self,
        symbol: &Symbol,
        period_type: PeriodType,
        limit: Option<usize>,
        now: u64,
    ) -> (r: Result<Vec<FinancialStatement>, DataError>)
        requires
            old(self).wf(),
        ensures
            final(self).wf(),
            old(self).spec_fundamental_providers().len() == 0 ==> (r matches Err(e) && e
                matches DataError::ProviderNotConfigured(m) && m@
                == "No fundamental providers registered"@ && *final(self) == *old(self)),
            final(self).spec_fundamental_providers().len() == old(
                self,
            ).spec_fundamental_providers().len(),
            final(self).spec_price_providers() == old(self).spec_price_providers(),
            final(self).spec_tick_providers() == old(self).spec_tick_providers(),
            final(self).spec_reference_providers() == old(self).spec_reference_providers(),
            old(self).spec_cache() is None ==> final(self).spec_cache() is None,
    {
        let n = self.fundamental_providers.len();
        if n == 0 {
            return Err(
                DataError::ProviderNotConfigured(
                    String::from_str("No fundamental providers registered"),
                ),
            );
        }
        // Check the cache first, under each registered source's identity.
        let mut i: usize = 0;
        #[verifier::loop_isolation(false)]
        while i < n
            invariant
                0 <= i <= n,
            decreases n - i,
        {
            if let Some(cache) = &self.cache {
                let pname = self.fundamental_providers[i].name();
                match cache.get_financials(pname, symbol, period_type) {
                    Ok(Some(mut cached)) => {
                        apply_limit(&mut cached, limit);
                        return Ok(cached);
                    },
                    _ => {},
                }
            }
            i += 1;
        }
        // Full cache miss: try each source in registration order.
        let mut last_error: Option<DataError> = None;
        let mut i: usize = 0;
        #[verifier::loop_isolation(false)]
        while i < n
            invariant
                0 <= i <= n,
                self.wf(),
                n == self.fundamental_providers@.len(),
                self.price_providers == old(self).price_providers,
                self.tick_providers == old(self).tick_providers,
                self.reference_providers == old(self).reference_providers,
                old(self).cache is None ==> self.cache is None,
            decreases n - i,
        {
            let outcome = self.fundamental_providers[i].fetch_financials(
                symbol,
                period_type,
                limit,
            );
            match absorb_outcome(outcome, &mut last_error) {
                Some(statements) => {
                    let pname = self.fundamental_providers[i].name();
                    if let Some(cache) = &mut self.cache {
                        let _ = cache.put_financials(pname, symbol, statements.as_slice(), now);
                    }
                    return Ok(statements);
                },
                None => {},
            }
            i += 1;
        }
        Err(exhausted_error(last_error))
    }

    /// Fetches key metrics with cache-first lookup and ordered fallback.
    pub fn fetch_metrics(&mut self, symbol: &Symbol, date: Date, now: u64) -> (r: Result<
        KeyMetrics,
        DataError,
    >)
        requires
            old(self).wf(),
        ensures
            final(self).wf(),
            old(self).spec_fundamental_providers().len() == 0 ==> (r matches Err(e) && e
                matches DataError::ProviderNotConfigured(m) && m@
                == "No fundamental providers registered"@ && *final(self) == *old(self)),
            final(self).spec_fundamental_providers().len() == old(
                self,
            ).spec_fundamental_providers().len(),
            final(self).spec_price_providers() == old(self).spec_price_providers(),
            final(self).spec_tick_providers() == old(self).spec_tick_providers(),
            final(self).spec_reference_providers() == old(self).spec_reference_providers(),
            old(self).spec_cache() is None ==> final(self).spec_cache() is None,
    {
        let n = self.fundamental_providers.len();
        if n == 0 {
            return Err(
                DataError::ProviderNotConfigured(
                    String::from_str("No fundamental providers registered"),
                ),
            );
        }
        // Check the cache first, under each registered source's identity.
        let mut i: usize = 0;
        #[verifier::loop_isolation(false)]
        while i < n
            invariant
                0 <= i <= n,
            decreases n - i,
        {
            if let Some(cache) = &self.cache {
                let pname = self.fundamental_providers[i].name();
                match cache.get_metrics(pname, symbol, date) {
                    Ok(Some(cached)) => {
                        return Ok(cached);
                    },
                    _ => {},
                }
            }
            i += 1;
        }
        // Full cache miss: try each source in registration order.
        let mut last_error: Option<DataError> = None;
        let mut i: usize = 0;
        #[verifier::loop_isolation(false)]
        while i < n
            invariant
                0 <= i <= n,
                self.wf(),
                n == self.fundamental_providers@.len(),
                self.price_providers == old(self).price_providers,
                self.tick_providers == old(self).tick_providers,
                self.reference_providers == old(self).reference_providers,
                old(self).cache is None ==> self.cache is None,
            decreases n - i,
        {
            let outcome = self.fundamental_providers[i].fetch_metrics(symbol, date);
            match absorb_outcome(outcome, &mut last_error) {
                Some(metrics) => {
                    let pname = self.fundamental_providers[i].name();
                    if let Some(cache) = &mut self.cache {
                        let _ = cache.put_metrics(pname, symbol, &metrics, now);
                    }
                    return Ok(metrics);
                },
                None => {},
            }
            i += 1;
        }
        Err(exhausted_error(last_error))
    }
}

} // verus!
