use std::cell::Cell;
use std::rc::Rc;

use market_data::{
    CompanyInfo, DataCache, DataError, DataFrequency, DataProvider, DataProviderRegistry, Date,
    F64Bits, FinancialStatement, FundamentalDataProvider, InMemoryCache, KeyMetrics, NoopCache,
    OhlcvRow, OhlcvSeries, PeriodType, PriceDataProvider, ReferenceDataProvider, Symbol, Tick,
    TickDataProvider,
};

fn d(y: i32, m: u32, day: u32) -> Date {
    Date::from_ymd_opt(y, m, day).unwrap()
}

fn bar(date: Date, px: f64) -> OhlcvRow {
    OhlcvRow {
        date,
        open: F64Bits(px.to_bits()),
        high: F64Bits(px.to_bits()),
        low: F64Bits(px.to_bits()),
        close: F64Bits(px.to_bits()),
        volume: F64Bits(1.0f64.to_bits()),
        adjusted_close: None,
    }
}

/// A price source test double: fails with a network error or succeeds with
/// a fixed series, counting live-fetch calls either way.
struct PriceDouble {
    id: String,
    fails: bool,
    rows: Vec<OhlcvRow>,
    calls: Rc<Cell<u32>>,
}

impl DataProvider for PriceDouble {
    fn name(&self) -> &str {
        &self.id
    }

    fn description(&self) -> &str {
        "price test double"
    }

    fn supported_frequencies(&self) -> Vec<DataFrequency> {
        vec![DataFrequency::Daily]
    }
}

impl PriceDataProvider for PriceDouble {
    fn fetch_ohlcv(
        &mut self,
        _symbol: &Symbol,
        _start: Date,
        _end: Date,
        _frequency: DataFrequency,
    ) -> Result<OhlcvSeries, DataError> {
        self.calls.set(self.calls.get() + 1);
        if self.fails {
            Err(DataError::Network(String::from("connection refused")))
        } else {
            Ok(OhlcvSeries::from_rows(self.rows.clone()))
        }
    }
}

/// A fundamental source test double.
struct FundDouble {
    id: String,
    fails: bool,
    calls: Rc<Cell<u32>>,
}

impl DataProvider for FundDouble {
    fn name(&self) -> &str {
        &self.id
    }

    fn description(&self) -> &str {
        "fundamental test double"
    }

    fn supported_frequencies(&self) -> Vec<DataFrequency> {
        vec![DataFrequency::Annual]
    }
}

impl FundamentalDataProvider for FundDouble {
    fn fetch_financials(
        &mut self,
        symbol: &Symbol,
        period_type: PeriodType,
        _limit: Option<usize>,
    ) -> Result<Vec<FinancialStatement>, DataError> {
        self.calls.set(self.calls.get() + 1);
        if self.fails {
            Err(DataError::Network(String::from("connection refused")))
        } else {
            Ok(vec![FinancialStatement::new(
                symbol.clone(),
                d(2023, 12, 31),
                period_type,
            )])
        }
    }

    fn fetch_metrics(&mut self, symbol: &Symbol, date: Date) -> Result<KeyMetrics, DataError> {
        self.calls.set(self.calls.get() + 1);
        if self.fails {
            Err(DataError::Network(String::from("connection refused")))
        } else {
            let mut m = KeyMetrics::new(symbol.clone(), date);
            m.market_cap = Some(F64Bits(3_000_000_000_000.0f64.to_bits()));
            Ok(m)
        }
    }
}

/// A tick source test double (never used by these tests).
struct TickDouble;

impl DataProvider for TickDouble {
    fn name(&self) -> &str {
        "tickdouble"
    }

    fn description(&self) -> &str {
        "tick test double"
    }

    fn supported_frequencies(&self) -> Vec<DataFrequency> {
        vec![DataFrequency::Tick]
    }
}

impl TickDataProvider for TickDouble {
    fn fetch_ticks(&mut self, _symbol: &Symbol, _start: u64, _end: u64) -> Result<Vec<Tick>, DataError> {
        Ok(Vec::new())
    }
}

/// A reference source test double (never used by these tests).
struct RefDouble;

impl DataProvider for RefDouble {
    fn name(&self) -> &str {
        "refdouble"
    }

    fn description(&self) -> &str {
        "reference test double"
    }

    fn supported_frequencies(&self) -> Vec<DataFrequency> {
        vec![DataFrequency::Daily]
    }
}

impl ReferenceDataProvider for RefDouble {
    fn company_info(&mut self, symbol: &Symbol) -> Result<CompanyInfo, DataError> {
        Ok(CompanyInfo::new(
            symbol.clone(),
            String::from("Test Co"),
            String::from("TEST"),
            String::from("Testing"),
            String::from("Doubles"),
            String::from("US"),
            String::from("USD"),
        ))
    }

    fn universe(&mut self, _universe_id: &str) -> Result<Vec<Symbol>, DataError> {
        Ok(Vec::new())
    }

    fn supports_symbol(&mut self, _symbol: &Symbol) -> Result<bool, DataError> {
        Ok(true)
    }
}

/// A cache port test double that counts lookups and always misses.
struct CountingCache {
    gets: Rc<Cell<u32>>,
}

impl DataCache for CountingCache {
    // Ghost trait item; erased from verified call sites and never run.
    fn wf(&self) -> bool {
        true
    }

    fn get_ohlcv(
        &self,
        _provider: &str,
        _symbol: &Symbol,
        _start: Date,
        _end: Date,
    ) -> Result<Option<OhlcvSeries>, DataError> {
        self.gets.set(self.gets.get() + 1);
        Ok(None)
    }

    fn put_ohlcv(
        &mut self,
        _provider: &str,
        _symbol: &Symbol,
        _data: &OhlcvSeries,
        _now: u64,
    ) -> Result<(), DataError> {
        Ok(())
    }

    fn get_financials(
        &self,
        _provider: &str,
        _symbol: &Symbol,
        _period_type: PeriodType,
    ) -> Result<Option<Vec<FinancialStatement>>, DataError> {
        self.gets.set(self.gets.get() + 1);
        Ok(None)
    }

    fn put_financials(
        &mut self,
        _provider: &str,
        _symbol: &Symbol,
        _statements: &[FinancialStatement],
        _now: u64,
    ) -> Result<(), DataError> {
        Ok(())
    }

    fn get_metrics(
        &self,
        _provider: &str,
        _symbol: &Symbol,
        _date: Date,
    ) -> Result<Option<KeyMetrics>, DataError> {
        self.gets.set(self.gets.get() + 1);
        Ok(None)
    }

    fn put_metrics(
        &mut self,
        _provider: &str,
        _symbol: &Symbol,
        _metrics: &KeyMetrics,
        _now: u64,
    ) -> Result<(), DataError> {
        Ok(())
    }

    fn invalidate_stale(&mut self, _ttl: u64, _now: u64) -> Result<usize, DataError> {
        Ok(0)
    }

    fn clear(&mut self) -> Result<(), DataError> {
        Ok(())
    }
}

type TestRegistry<C> = DataProviderRegistry<C, PriceDouble, FundDouble, TickDouble, RefDouble>;

#[test]
fn test_no_price_source_is_provider_not_configured() {
    // Scenario: no price source configured: fetch_ohlcv fails immediately
    // with ProviderNotConfigured and the cache is not consulted.
    let gets = Rc::new(Cell::new(0u32));
    let mut registry: TestRegistry<CountingCache> =
        DataProviderRegistry::with_cache(CountingCache { gets: gets.clone() });
    let symbol = Symbol::new("AAPL");
    let r = registry.fetch_ohlcv(&symbol, d(2024, 1, 1), d(2024, 1, 31), DataFrequency::Daily, 0);
    assert!(matches!(r, Err(DataError::ProviderNotConfigured(_))));
    assert_eq!(gets.get(), 0);
}

#[test]
fn test_fallback_returns_second_source_and_caches_under_its_name() {
    // Fallback order: sources [a (fails), b (succeeds)]: the registry
    // returns b's result and the final state has b's cache entry populated
    // while a has none.
    let a_calls = Rc::new(Cell::new(0u32));
    let b_calls = Rc::new(Cell::new(0u32));
    let rows = vec![bar(d(2024, 1, 2), 150.0), bar(d(2024, 1, 3), 151.0)];
    let mut registry: TestRegistry<InMemoryCache> =
        DataProviderRegistry::with_cache(InMemoryCache::new());
    registry.register_price(PriceDouble {
        id: String::from("a"),
        fails: true,
        rows: Vec::new(),
        calls: a_calls.clone(),
    });
    registry.register_price(PriceDouble {
        id: String::from("b"),
        fails: false,
        rows: rows.clone(),
        calls: b_calls.clone(),
    });
    let symbol = Symbol::new("AAPL");
    let got = registry
        .fetch_ohlcv(&symbol, d(2024, 1, 2), d(2024, 1, 3), DataFrequency::Daily, 7)
        .unwrap();
    assert_eq!(got.len(), 2);
    assert_eq!(a_calls.get(), 1);
    assert_eq!(b_calls.get(), 1);

    let cache = registry.cache_ref().as_ref().unwrap();
    // b's entry is populated (under the series' derived date extent).
    assert!(cache
        .get_ohlcv("b", &symbol, d(2024, 1, 2), d(2024, 1, 3))
        .unwrap()
        .is_some());
    // a has no entry.
    assert!(cache
        .get_ohlcv("a", &symbol, d(2024, 1, 2), d(2024, 1, 3))
        .unwrap()
        .is_none());
}

#[test]
fn test_all_sources_fail_returns_last_error() {
    let calls = Rc::new(Cell::new(0u32));
    let mut registry: TestRegistry<NoopCache> = DataProviderRegistry::new();
    registry.register_price(PriceDouble {
        id: String::from("a"),
        fails: true,
        rows: Vec::new(),
        calls: calls.clone(),
    });
    registry.register_price(PriceDouble {
        id: String::from("b"),
        fails: true,
        rows: Vec::new(),
        calls: calls.clone(),
    });
    let symbol = Symbol::new("AAPL");
    let r = registry.fetch_ohlcv(&symbol, d(2024, 1, 1), d(2024, 1, 31), DataFrequency::Daily, 0);
    assert!(matches!(r, Err(DataError::Network(_))));
    assert_eq!(calls.get(), 2);
}

#[test]
fn test_cache_hit_skips_live_fetch() {
    // Scenario: registry with cache and one price source. The first call
    // misses the cache, succeeds from the source and caches the result; a
    // second call with identical parameters hits the cache and the source
    // is not invoked again.
    let calls = Rc::new(Cell::new(0u32));
    // The series covers exactly the requested range, so the derived cache
    // key equals the request key and the second call can hit.
    let rows = vec![bar(d(2024, 1, 2), 150.0), bar(d(2024, 1, 3), 151.0)];
    let mut registry: TestRegistry<InMemoryCache> =
        DataProviderRegistry::with_cache(InMemoryCache::new());
    registry.register_price(PriceDouble {
        id: String::from("src"),
        fails: false,
        rows,
        calls: calls.clone(),
    });
    let symbol = Symbol::new("AAPL");

    let first = registry
        .fetch_ohlcv(&symbol, d(2024, 1, 2), d(2024, 1, 3), DataFrequency::Daily, 0)
        .unwrap();
    assert_eq!(first.len(), 2);
    assert_eq!(calls.get(), 1);

    let second = registry
        .fetch_ohlcv(&symbol, d(2024, 1, 2), d(2024, 1, 3), DataFrequency::Daily, 1)
        .unwrap();
    assert_eq!(second.len(), 2);
    assert_eq!(calls.get(), 1);
}

#[test]
fn test_fetch_metrics_caches_and_hits() {
    let calls = Rc::new(Cell::new(0u32));
    let mut registry: TestRegistry<InMemoryCache> =
        DataProviderRegistry::with_cache(InMemoryCache::new());
    registry.register_fundamental(FundDouble {
        id: String::from("fund"),
        fails: false,
        calls: calls.clone(),
    });
    let symbol = Symbol::new("AAPL");
    let date = d(2024, 1, 15);

    let first = registry.fetch_metrics(&symbol, date, 0).unwrap();
    assert_eq!(
        f64::from_bits(first.market_cap.unwrap().0),
        3_000_000_000_000.0
    );
    assert_eq!(calls.get(), 1);

    let second = registry.fetch_metrics(&symbol, date, 1).unwrap();
    assert_eq!(
        f64::from_bits(second.market_cap.unwrap().0),
        3_000_000_000_000.0
    );
    assert_eq!(calls.get(), 1);
}

#[test]
fn test_fetch_financials_no_fundamental_source() {
    let mut registry: TestRegistry<NoopCache> = DataProviderRegistry::new();
    let symbol = Symbol::new("AAPL");
    let r = registry.fetch_financials(&symbol, PeriodType::Annual, Some(5), 0);
    assert!(matches!(r, Err(DataError::ProviderNotConfigured(_))));
}

#[test]
fn test_fetch_financials_limit_applies_to_cache_hit() {
    // A limit is applied to a cached statement list by truncation.
    let mut cache = InMemoryCache::new();
    let symbol = Symbol::new("AAPL");
    let s1 = FinancialStatement::new(symbol.clone(), d(2023, 12, 31), PeriodType::Annual);
    let s2 = FinancialStatement::new(symbol.clone(), d(2022, 12, 31), PeriodType::Annual);
    let s3 = FinancialStatement::new(symbol.clone(), d(2021, 12, 31), PeriodType::Annual);
    cache
        .put_financials("fund", &symbol, &[s1, s2, s3], 0)
        .unwrap();

    let calls = Rc::new(Cell::new(0u32));
    let mut registry: TestRegistry<InMemoryCache> = DataProviderRegistry::with_cache(cache);
    registry.register_fundamental(FundDouble {
        id: String::from("fund"),
        fails: false,
        calls: calls.clone(),
    });
    let got = registry
        .fetch_financials(&symbol, PeriodType::Annual, Some(2), 0)
        .unwrap();
    assert_eq!(got.len(), 2);
    assert_eq!(calls.get(), 0);
}

#[test]
fn test_batch_bypasses_cache() {
    // Bulk requests neither consult nor populate the cache.
    let calls = Rc::new(Cell::new(0u32));
    let rows = vec![bar(d(2024, 1, 2), 150.0)];
    let mut registry: TestRegistry<InMemoryCache> =
        DataProviderRegistry::with_cache(InMemoryCache::new());
    registry.register_price(PriceDouble {
        id: String::from("src"),
        fails: false,
        rows,
        calls: calls.clone(),
    });
    let symbols = vec![Symbol::new("AAPL"), Symbol::new("MSFT")];
    let got = registry
        .fetch_ohlcv_batch(&symbols, d(2024, 1, 2), d(2024, 1, 2), DataFrequency::Daily)
        .unwrap();
    // Two symbols, one bar each, concatenated.
    assert_eq!(got.len(), 2);
    // Per-symbol sequential fetches through the default batch implementation.
    assert_eq!(calls.get(), 2);
    // Nothing was written through.
    let cache = registry.cache_ref().as_ref().unwrap();
    assert!(cache
        .get_ohlcv("src", &Symbol::new("AAPL"), d(2024, 1, 2), d(2024, 1, 2))
        .unwrap()
        .is_none());
}
