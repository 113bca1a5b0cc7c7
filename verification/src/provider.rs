//! Capability interfaces for data sources.
//!
//! A data source participates in the registry by implementing one or more
//! of these narrow contracts. The sources themselves are external
//! collaborators: nothing is promised of what a fetch returns, and the
//! registry states only what holds whatever comes back. Durations and
//! timestamps are whole milliseconds.

use vstd::prelude::*;

use crate::company::CompanyInfo;
use crate::date::Date;
use crate::error::DataError;
use crate::frequency::{DataFrequency, PeriodType};
use crate::metrics::KeyMetrics;
use crate::series::OhlcvSeries;
use crate::statement::FinancialStatement;
use crate::symbol::Symbol;
use crate::tick::Tick;

verus! {

/// Base trait for all data providers: metadata about the provider and its
/// capabilities.
pub trait DataProvider: Sized {
    /// Returns the name of this provider: its stable identity, used as a
    /// cache-namespace discriminator and as the fallback ordering key.
    fn name(&self) -> (r: &str);

    /// Returns a description of this provider.
    fn description(&self) -> (r: &str);

    /// Returns the data frequencies supported by this provider.
    fn supported_frequencies(&self) -> (r: Vec<DataFrequency>);
}

/// Provider of OHLCV price data.
pub trait PriceDataProvider: DataProvider {
    /// Fetches OHLCV data for a single symbol.
    fn fetch_ohlcv(
        &mut self,
        symbol: &Symbol,
        start: Date,
        end: Date,
        frequency: DataFrequency,
    ) -> (r: Result<OhlcvSeries, DataError>);

    /// Fetches OHLCV data for multiple symbols.
    ///
    /// The default implementation calls `fetch_ohlcv` sequentially for each
    /// symbol and concatenates the results, skipping symbols the source
    /// reports as not found. Providers can override it with an optimized
    /// batch implementation.
    fn fetch_ohlcv_batch(
        &mut self,
        symbols: &[Symbol],
        start: Date,
        end: Date,
        frequency: DataFrequency,
    ) -> (r: Result<OhlcvSeries, DataError>)
        default_ensures
            symbols@.len() == 0 ==> (r matches Ok(s) && s@.len() == 0),
    {
        let mut combined = OhlcvSeries::new();
        let n = symbols.len();
        if n == 0 {
            return Ok(combined);
        }
        let mut i: usize = 0;
        while i < n
            invariant
                0 <= i <= n,
                n == symbols@.len(),
            decreases n - i,
        {
            match self.fetch_ohlcv(&symbols[i], start, end, frequency) {
                Ok(series) => {
                    combined.append_rows(&series);
                },
                Err(DataError::SymbolNotFound(_)) => {},
                Err(e) => {
                    return Err(e);
                },
            }
            i += 1;
        }
        Ok(combined)
    }
}

/// Provider of fundamental financial data.
pub trait FundamentalDataProvider: DataProvider {
    /// Fetches financial statements for a symbol, most recent first, at most
    /// `limit` of them when a limit is given.
    fn fetch_financials(
        &mut self,
        symbol: &Symbol,
        period_type: PeriodType,
        limit: Option<usize>,
    ) -> (r: Result<Vec<FinancialStatement>, DataError>);

    /// Fetches key financial metrics for a symbol on a specific date.
    fn fetch_metrics(&mut self, symbol: &Symbol, date: Date) -> (r: Result<KeyMetrics, DataError>);
}

/// Provider of tick-level market data.
pub trait TickDataProvider: DataProvider {
    /// Fetches historical tick data for a symbol between two timestamps
    /// (milliseconds).
    fn fetch_ticks(&mut self, symbol: &Symbol, start: u64, end: u64) -> (r: Result<
        Vec<Tick>,
        DataError,
    >);
}

/// Provider of company reference data.
pub trait ReferenceDataProvider: DataProvider {
    /// Fetches company information for a symbol.
    fn company_info(&mut self, symbol: &Symbol) -> (r: Result<CompanyInfo, DataError>);

    /// Fetches the symbols in a named universe (e.g., "sp500").
    fn universe(&mut self, universe_id: &str) -> (r: Result<Vec<Symbol>, DataError>);

    /// Checks if a symbol is supported by this provider.
    fn supports_symbol(&mut self, symbol: &Symbol) -> (r: Result<bool, DataError>);
}

} // verus!
