//! OHLCV price bar series.

use vstd::prelude::*;

use crate::date::Date;

verus! {

/// The raw bit pattern of a 64-bit IEEE-754 value.
///
/// Prices, volumes and ratios pass through this crate opaquely: the cache
/// and registry never interpret them, so they are carried as bare bit
/// patterns and converted to and from floating point only at the crate's
/// boundary.
#[derive(Clone, Copy, Debug, PartialEq, Eq, Structural, Hash)]
pub struct F64Bits(pub u64);

/// One OHLCV price bar: a calendar day with its open, high, low, close,
/// volume and optional adjusted close.
#[derive(Clone, Copy, Debug, PartialEq)]
pub struct OhlcvRow {
    /// The bar's calendar day.
    pub date: Date,
    /// Opening price.
    pub open: F64Bits,
    /// Highest price during the period.
    pub high: F64Bits,
    /// Lowest price during the period.
    pub low: F64Bits,
    /// Closing price.
    pub close: F64Bits,
    /// Trading volume.
    pub volume: F64Bits,
    /// Split/dividend adjusted closing price.
    pub adjusted_close: Option<F64Bits>,
}

/// An OHLCV price series: a sequence of bars for one symbol.
#[derive(Debug, PartialEq)]
pub struct OhlcvSeries {
    /// The bars, in the order the producer supplied them.
    pub rows: Vec<OhlcvRow>,
}

impl View for OhlcvSeries {
    type V = Seq<OhlcvRow>;

    open spec fn view(&self) -> Seq<OhlcvRow> {
        self.rows@
    }
}

/// The least date among the rows, under the lexicographic date order;
/// meaningful only for non-empty sequences.
pub open spec fn spec_min_date(rows: Seq<OhlcvRow>) -> Date
    decreases rows.len(),
{
    if rows.len() == 0 {
        Date { year: 0, month: 0, day: 0 }
    } else if rows.len() == 1 {
        rows[0].date
    } else {
        let rest = spec_min_date(rows.drop_last());
        let last = rows.last().date;
        if last.spec_le(rest) {
            last
        } else {
            rest
        }
    }
}

/// The greatest date among the rows, under the lexicographic date order;
/// meaningful only for non-empty sequences.
pub open spec fn spec_max_date(rows: Seq<OhlcvRow>) -> Date
    decreases rows.len(),
{
    if rows.len() == 0 {
        Date { year: 0, month: 0, day: 0 }
    } else if rows.len() == 1 {
        rows[0].date
    } else {
        let rest = spec_max_date(rows.drop_last());
        let last = rows.last().date;
        if rest.spec_le(last) {
            last
        } else {
            rest
        }
    }
}

impl OhlcvSeries {
    /// Creates an empty series.
    pub fn new() -> (r: Self)
        ensures
            r@ =~= Seq::<OhlcvRow>::empty(),
    {
        OhlcvSeries { rows: Vec::new() }
    }

    /// Creates a series from a vector of bars.
    pub fn from_rows(rows: Vec<OhlcvRow>) -> (r: Self)
        ensures
            r@ == rows@,
    {
        OhlcvSeries { rows }
    }

    /// Appends a bar to the series.
    pub fn push(&mut self, row: OhlcvRow)
        ensures
            final(self)@ == old(self)@.push(row),
    {
        self.rows.push(row);
    }

    /// Appends copies of another series' bars to this one.
    pub fn append_rows(&mut self, other: &OhlcvSeries)
        ensures
            final(self)@ == old(self)@ + other@,
    {
        let mut i: usize = 0;
        #[verifier::loop_isolation(false)]
        while i < other.rows.len()
            invariant
                0 <= i <= other@.len(),
                self@ =~= old(self)@ + other@.take(i as int),
            decreases other@.len() - i,
        {
            self.rows.push(other.rows[i]);
            proof {
                assert(self@ =~= old(self)@ + other@.take(i + 1));
            }
            i += 1;
        }
        proof {
            assert(other@.take(other@.len() as int) =~= other@);
            assert(self@ =~= old(self)@ + other@);
        }
    }

    /// Returns the number of bars.
    pub fn len(&self) -> (r: usize)
        ensures
            r == self@.len(),
    {
        self.rows.len()
    }

    /// Returns true if the series holds no bars.
    pub fn is_empty(&self) -> (r: bool)
        ensures
            r == (self@.len() == 0),
    {
        self.rows.len() == 0
    }

    /// Returns the least date among the bars, or `None` for an empty series.
    pub fn min_date(&self) -> (r: Option<Date>)
        ensures
            self@.len() == 0 ==> r is None,
            self@.len() > 0 ==> r == Some(spec_min_date(self@)),
    {
        if self.rows.len() == 0 {
            return None;
        }
        let mut best = self.rows[0].date;
        let mut i: usize = 1;
        while i < self.rows.len()
            invariant
                1 <= i <= self@.len(),
                best == spec_min_date(self@.take(i as int)),
            decreases self@.len() - i,
        {
            let d = self.rows[i].date;
            proof {
                assert(self@.take(i + 1).drop_last() =~= self@.take(i as int));
                assert(self@.take(i + 1).last() == self@[i as int]);
            }
            if d.le(&best) {
                best = d;
            }
            i += 1;
        }
        proof {
            assert(self@.take(self@.len() as int) =~= self@);
        }
        Some(best)
    }

    /// Returns the greatest date among the bars, or `None` for an empty
    /// series.
    pub fn max_date(&self) -> (r: Option<Date>)
        ensures
            self@.len() == 0 ==> r is None,
            self@.len() > 0 ==> r == Some(spec_max_date(self@)),
    {
        if self.rows.len() == 0 {
            return None;
        }
        let mut best = self.rows[0].date;
        let mut i: usize = 1;
        while i < self.rows.len()
            invariant
                1 <= i <= self@.len(),
                best == spec_max_date(self@.take(i as int)),
            decreases self@.len() - i,
        {
            let d = self.rows[i].date;
            proof {
                assert(self@.take(i + 1).drop_last() =~= self@.take(i as int));
                assert(self@.take(i + 1).last() == self@[i as int]);
            }
            if best.le(&d) {
                best = d;
            }
            i += 1;
        }
        proof {
            assert(self@.take(self@.len() as int) =~= self@);
        }
        Some(best)
    }
}

impl Clone for OhlcvSeries {
    /// The copy denotes the same sequence of bars.
    fn clone(&self) -> (r: Self)
        ensures
            r@ == self@,
    {
        let mut rows: Vec<OhlcvRow> = Vec::new();
        let mut i: usize = 0;
        while i < self.rows.len()
            invariant
                0 <= i <= self@.len(),
                rows@ =~= self@.take(i as int),
            decreases self@.len() - i,
        {
            rows.push(self.rows[i]);
            i += 1;
        }
        proof {
            assert(rows@ =~= self@);
        }
        OhlcvSeries { rows }
    }
}

} // verus!
