//! Interactive Brokers data provider (stub).
//!
//! A placeholder for a Trader Workstation / IB Gateway integration: it
//! records connection parameters and reports every data request as not
//! supported.

use vstd::prelude::*;

use crate::date::Date;
use crate::error::DataError;
use crate::frequency::{DataFrequency, PeriodType};
use crate::metrics::KeyMetrics;
use crate::provider::{DataProvider, FundamentalDataProvider, PriceDataProvider, TickDataProvider};
use crate::series::OhlcvSeries;
use crate::statement::FinancialStatement;
use crate::symbol::Symbol;
use crate::tick::Tick;

verus! {

/// Interactive Brokers data provider (stub).
#[derive(Debug)]
pub struct IbkrProvider {
    host: String,
    port: u16,
}

impl IbkrProvider {
    /// The configured host address.
    pub closed spec fn spec_host(&self) -> Seq<char> {
        self.host@
    }

    /// The configured port.
    pub closed spec fn spec_port(&self) -> u16 {
        self.port
    }

    /// Creates a new Interactive Brokers provider with connection
    /// parameters (host address and TWS/Gateway port).
    pub fn new(host: &str, port: u16) -> (r: Self)
        ensures
            r.spec_host() == host@,
            r.spec_port() == port,
    {
        IbkrProvider { host: host.to_owned(), port }
    }
}

impl DataProvider for IbkrProvider {
    /// The provider's stable identity.
    fn name(&self) -> (r: &str)
        ensures
            r@ == "ibkr"@,
    {
        "ibkr"
    }

    fn description(&self) -> (r: &str)
        ensures
            r@ == "Interactive Brokers TWS API provider - provides historical and real-time market data, \
         fundamental data, and trading capabilities via Trader Workstation or IB Gateway"@,
    {
        "Interactive Brokers TWS API provider - provides historical and real-time market data, \
         fundamental data, and trading capabilities via Trader Workstation or IB Gateway"
    }

    fn supported_frequencies(&self) -> (r: Vec<DataFrequency>)
        ensures
            r@ =~= seq![
                DataFrequency::Tick,
                DataFrequency::Second,
                DataFrequency::Minute,
                DataFrequency::FiveMinute,
                DataFrequency::FifteenMinute,
                DataFrequency::ThirtyMinute,
                DataFrequency::Hourly,
                DataFrequency::Daily,
                DataFrequency::Weekly,
                DataFrequency::Monthly,
            ],
    {
        vec![
            DataFrequency::Tick,
            DataFrequency::Second,
            DataFrequency::Minute,
            DataFrequency::FiveMinute,
            DataFrequency::FifteenMinute,
            DataFrequency::ThirtyMinute,
            DataFrequency::Hourly,
            DataFrequency::Daily,
            DataFrequency::Weekly,
            DataFrequency::Monthly,
        ]
    }
}

impl TickDataProvider for IbkrProvider {
    /// Not yet implemented: always reports the request as not supported.
    fn fetch_ticks(&mut self, symbol: &Symbol, start: u64, end: u64) -> (r: Result<
        Vec<Tick>,
        DataError,
    >)
        ensures
            r matches Err(e) && e matches DataError::NotSupported(m) && m@
                == "IBKR provider not yet implemented"@,
    {
        Err(DataError::NotSupported(String::from_str("IBKR provider not yet implemented")))
    }
}

impl PriceDataProvider for IbkrProvider {
    /// Not yet implemented: always reports the request as not supported.
    fn fetch_ohlcv(
        &mut self,
        symbol: &Symbol,
        start: Date,
        end: Date,
        frequency: DataFrequency,
    ) -> (r: Result<OhlcvSeries, DataError>)
        ensures
            r matches Err(e) && e matches DataError::NotSupported(m) && m@
                == "IBKR provider not yet implemented"@,
    {
        Err(DataError::NotSupported(String::from_str("IBKR provider not yet implemented")))
    }
}

impl FundamentalDataProvider for IbkrProvider {
    /// Not yet implemented: always reports the request as not supported.
    fn fetch_financials(
        &mut self,
        symbol: &Symbol,
        period_type: PeriodType,
        limit: Option<usize>,
    ) -> (r: Result<Vec<FinancialStatement>, DataError>)
        ensures
            r matches Err(e) && e matches DataError::NotSupported(m) && m@
                == "IBKR provider not yet implemented"@,
    {
        Err(DataError::NotSupported(String::from_str("IBKR provider not yet implemented")))
    }

    /// Not yet implemented: always reports the request as not supported.
    fn fetch_metrics(&mut self, symbol: &Symbol, date: Date) -> (r: Result<KeyMetrics, DataError>)
        ensures
            r matches Err(e) && e matches DataError::NotSupported(m) && m@
                == "IBKR provider not yet implemented"@,
    {
        Err(DataError::NotSupported(String::from_str("IBKR provider not yet implemented")))
    }
}

} // verus!
