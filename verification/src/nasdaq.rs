//! NASDAQ tick data provider (stub).
//!
//! A placeholder for a NASDAQ TotalView integration: it records the API key
//! and reports every data request as not supported.

use vstd::prelude::*;

use crate::date::Date;
use crate::error::DataError;
use crate::frequency::DataFrequency;
use crate::provider::{DataProvider, PriceDataProvider, TickDataProvider};
use crate::series::OhlcvSeries;
use crate::symbol::Symbol;
use crate::tick::Tick;

verus! {

/// NASDAQ tick data provider (stub).
#[derive(Debug)]
pub struct NasdaqProvider {
    api_key: String,
}

impl NasdaqProvider {
    /// The configured API key.
    pub closed spec fn spec_api_key(&self) -> Seq<char> {
        self.api_key@
    }

    /// Creates a new NASDAQ provider with the given API key.
    pub fn new(api_key: &str) -> (r: Self)
        ensures
            r.spec_api_key() == api_key@,
    {
        NasdaqProvider { api_key: api_key.to_owned() }
    }
}

impl DataProvider for NasdaqProvider {
    /// The provider's stable identity.
    fn name(&self) -> (r: &str)
        ensures
            r@ == "nasdaq"@,
    {
        "nasdaq"
    }

    fn description(&self) -> (r: &str)
        ensures
            r@ == "NASDAQ TotalView tick data provider - provides Level 2 market data with full depth of \
         book, including all orders and executions on NASDAQ"@,
    {
        "NASDAQ TotalView tick data provider - provides Level 2 market data with full depth of \
         book, including all orders and executions on NASDAQ"
    }

    fn supported_frequencies(&self) -> (r: Vec<DataFrequency>)
        ensures
            r@ =~= seq![
                DataFrequency::Tick,
                DataFrequency::Second,
                DataFrequency::Minute,
                DataFrequency::FiveMinute,
                DataFrequency::FifteenMinute,
                DataFrequency::ThirtyMinute,
                DataFrequency::Hourly,
                DataFrequency::Daily,
            ],
    {
        vec![
            DataFrequency::Tick,
            DataFrequency::Second,
            DataFrequency::Minute,
            DataFrequency::FiveMinute,
            DataFrequency::FifteenMinute,
            DataFrequency::ThirtyMinute,
            DataFrequency::Hourly,
            DataFrequency::Daily,
        ]
    }
}

impl TickDataProvider for NasdaqProvider {
    /// Not yet implemented: always reports the request as not supported.
    fn fetch_ticks(&mut self, symbol: &Symbol, start: u64, end: u64) -> (r: Result<
        Vec<Tick>,
        DataError,
    >)
        ensures
            r matches Err(e) && e matches DataError::NotSupported(m) && m@
                == "NASDAQ provider not yet implemented"@,
    {
        Err(DataError::NotSupported(String::from_str("NASDAQ provider not yet implemented")))
    }
}

impl PriceDataProvider for NasdaqProvider {
    /// Not yet implemented: always reports the request as not supported.
    fn fetch_ohlcv(
        &mut self,
        symbol: &Symbol,
        start: Date,
        end: Date,
        frequency: DataFrequency,
    ) -> (r: Result<OhlcvSeries, DataError>)
        ensures
            r matches Err(e) && e matches DataError::NotSupported(m) && m@
                == "NASDAQ provider not yet implemented"@,
    {
        Err(DataError::NotSupported(String::from_str("NASDAQ provider not yet implemented")))
    }
}

} // verus!
