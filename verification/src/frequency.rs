//! Data frequency and period type definitions.

use vstd::prelude::*;

verus! {

/// Frequency/granularity of time series data.
#[derive(Clone, Copy, Debug, PartialEq, Eq, Structural, Hash)]
pub enum DataFrequency {
    /// Individual trades/quotes.
    Tick,
    /// One-second bars.
    Second,
    /// One-minute bars.
    Minute,
    /// Five-minute bars.
    FiveMinute,
    /// Fifteen-minute bars.
    FifteenMinute,
    /// Thirty-minute bars.
    ThirtyMinute,
    /// Hourly bars.
    Hourly,
    /// Daily bars.
    Daily,
    /// Weekly bars.
    Weekly,
    /// Monthly bars.
    Monthly,
    /// Quarterly data (for fundamentals).
    Quarterly,
    /// Annual data (for fundamentals).
    Annual,
}

impl DataFrequency {
    /// Holds exactly of the intraday frequencies (tick through hourly).
    pub open spec fn spec_is_intraday(&self) -> bool {
        match *self {
            DataFrequency::Tick
            | DataFrequency::Second
            | DataFrequency::Minute
            | DataFrequency::FiveMinute
            | DataFrequency::FifteenMinute
            | DataFrequency::ThirtyMinute
            | DataFrequency::Hourly => true,
            _ => false,
        }
    }

    /// Holds exactly of the fundamental-data frequencies (quarterly, annual).
    pub open spec fn spec_is_fundamental(&self) -> bool {
        match *self {
            DataFrequency::Quarterly | DataFrequency::Annual => true,
            _ => false,
        }
    }

    /// Returns true if this is an intraday frequency (tick through hourly).
    pub fn is_intraday(&self) -> (r: bool)
        ensures
            r == self.spec_is_intraday(),
    {
        match *self {
            DataFrequency::Tick
            | DataFrequency::Second
            | DataFrequency::Minute
            | DataFrequency::FiveMinute
            | DataFrequency::FifteenMinute
            | DataFrequency::ThirtyMinute
            | DataFrequency::Hourly => true,
            _ => false,
        }
    }

    /// Returns true if this is a fundamental data frequency (quarterly or annual).
    pub fn is_fundamental(&self) -> (r: bool)
        ensures
            r == self.spec_is_fundamental(),
    {
        match *self {
            DataFrequency::Quarterly | DataFrequency::Annual => true,
            _ => false,
        }
    }
}

/// Period type for fundamental financial data.
#[derive(Clone, Copy, Debug, PartialEq, Eq, Structural, Hash)]
pub enum PeriodType {
    /// Annual reporting period.
    Annual,
    /// Quarterly reporting period.
    Quarterly,
}

} // verus!
