//! The volatile in-memory cache backend.
//!
//! Three independent key-to-entry tables (OHLCV, financials, metrics).
//! Gets copy the stored value out to the caller; entries are replaced
//! wholesale on re-put. Data is lost when the cache is dropped.

use vstd::prelude::*;

use crate::cache::{spec_stale, DataCache};
use crate::date::Date;
use crate::error::DataError;
use crate::frequency::PeriodType;
use crate::metrics::{KeyMetrics, KeyMetricsView};
use crate::series::{spec_max_date, spec_min_date, OhlcvRow, OhlcvSeries};
use crate::statement::{FinancialStatement, FinancialStatementView};
use crate::symbol::Symbol;
use crate::table::{Dup, KeyEq, Table};

verus! {

/// Key for OHLCV cache entries.
pub struct OhlcvKey {
    /// The storing source's identity.
    pub provider: String,
    /// The symbol's text.
    pub symbol: String,
    /// Start of the covered date range.
    pub start: Date,
    /// End of the covered date range.
    pub end: Date,
}

impl DeepView for OhlcvKey {
    type V = (Seq<char>, Seq<char>, Date, Date);

    open spec fn deep_view(&self) -> (Seq<char>, Seq<char>, Date, Date) {
        (self.provider@, self.symbol@, self.start, self.end)
    }
}

impl KeyEq for OhlcvKey {
    fn key_eq(&self, other: &Self) -> (r: bool) {
        self.provider == other.provider && self.symbol == other.symbol && self.start
            == other.start && self.end == other.end
    }
}

impl Dup for OhlcvKey {
    fn dup(&self) -> (r: Self) {
        OhlcvKey {
            provider: self.provider.clone(),
            symbol: self.symbol.clone(),
            start: self.start,
            end: self.end,
        }
    }
}

/// Key for financials cache entries.
pub struct FinancialsKey {
    /// The storing source's identity.
    pub provider: String,
    /// The symbol's text.
    pub symbol: String,
    /// Annual or quarterly.
    pub period_type: PeriodType,
}

impl DeepView for FinancialsKey {
    type V = (Seq<char>, Seq<char>, PeriodType);

    open spec fn deep_view(&self) -> (Seq<char>, Seq<char>, PeriodType) {
        (self.provider@, self.symbol@, self.period_type)
    }
}

impl KeyEq for FinancialsKey {
    fn key_eq(&self, other: &Self) -> (r: bool) {
        self.provider == other.provider && self.symbol == other.symbol && self.period_type
            == other.period_type
    }
}

impl Dup for FinancialsKey {
    fn dup(&self) -> (r: Self) {
        FinancialsKey {
            provider: self.provider.clone(),
            symbol: self.symbol.clone(),
            period_type: self.period_type,
        }
    }
}

/// Key for metrics cache entries.
pub struct MetricsKey {
    /// The storing source's identity.
    pub provider: String,
    /// The symbol's text.
    pub symbol: String,
    /// The metrics record's date.
    pub date: Date,
}

impl DeepView for MetricsKey {
    type V = (Seq<char>, Seq<char>, Date);

    open spec fn deep_view(&self) -> (Seq<char>, Seq<char>, Date) {
        (self.provider@, self.symbol@, self.date)
    }
}

impl KeyEq for MetricsKey {
    fn key_eq(&self, other: &Self) -> (r: bool) {
        self.provider == other.provider && self.symbol == other.symbol && self.date == other.date
    }
}

impl Dup for MetricsKey {
    fn dup(&self) -> (r: Self) {
        MetricsKey {
            provider: self.provider.clone(),
            symbol: self.symbol.clone(),
            date: self.date,
        }
    }
}

impl DeepView for OhlcvSeries {
    type V = Seq<OhlcvRow>;

    open spec fn deep_view(&self) -> Seq<OhlcvRow> {
        self@
    }
}

impl Dup for OhlcvSeries {
    fn dup(&self) -> (r: Self) {
        self.clone()
    }
}

impl DeepView for FinancialStatement {
    type V = FinancialStatementView;

    open spec fn deep_view(&self) -> FinancialStatementView {
        self@
    }
}

impl Dup for Vec<FinancialStatement> {
    fn dup(&self) -> (r: Self) {
        let mut out: Vec<FinancialStatement> = Vec::new();
        let mut i: usize = 0;
        #[verifier::loop_isolation(false)]
        while i < self.len()
            invariant
                0 <= i <= self@.len(),
                out.deep_view() =~= self.deep_view().take(i as int),
            decreases self@.len() - i,
        {
            out.push(self[i].clone());
            proof {
                assert(out.deep_view() =~= self.deep_view().take(i + 1));
            }
            i += 1;
        }
        proof {
            assert(self.deep_view().take(self.deep_view().len() as int) =~= self.deep_view());
        }
        out
    }
}

impl DeepView for KeyMetrics {
    type V = KeyMetricsView;

    open spec fn deep_view(&self) -> KeyMetricsView {
        self@
    }
}

impl Dup for KeyMetrics {
    fn dup(&self) -> (r: Self) {
        self.clone()
    }
}

/// The quarterly statements among a sequence, in order.
pub open spec fn quarterly_of(s: Seq<FinancialStatementView>) -> Seq<FinancialStatementView> {
    s.filter(|v: FinancialStatementView| v.period_type == PeriodType::Quarterly)
}

/// The annual statements among a sequence, in order.
pub open spec fn annual_of(s: Seq<FinancialStatementView>) -> Seq<FinancialStatementView> {
    s.filter(|v: FinancialStatementView| v.period_type == PeriodType::Annual)
}

/// The OHLCV key the volatile backend derives for a stored series: the
/// requested range is ignored and the actual date extent of the series is
/// used, with the extreme well-formed dates standing in for an empty series.
pub open spec fn derived_ohlcv_range(rows: Seq<OhlcvRow>) -> (Date, Date) {
    if rows.len() == 0 {
        (Date { year: 1, month: 1, day: 1 }, Date { year: 9999, month: 12, day: 31 })
    } else {
        (spec_min_date(rows), spec_max_date(rows))
    }
}

/// Simple in-memory cache backend.
///
/// Values are copied on get and put; the backend owns its entries
/// exclusively.
pub struct InMemoryCache {
    ohlcv: Table<OhlcvKey, OhlcvSeries>,
    financials: Table<FinancialsKey, Vec<FinancialStatement>>,
    metrics: Table<MetricsKey, KeyMetrics>,
}

impl InMemoryCache {
    /// The OHLCV namespace: (provider, symbol, start, end) to (series,
    /// capture time).
    pub closed spec fn ohlcv_contents(&self) -> Map<
        (Seq<char>, Seq<char>, Date, Date),
        (Seq<OhlcvRow>, u64),
    > {
        self.ohlcv.contents()
    }

    /// The financials namespace: (provider, symbol, period kind) to
    /// (statements, capture time).
    pub closed spec fn financials_contents(&self) -> Map<
        (Seq<char>, Seq<char>, PeriodType),
        (Seq<FinancialStatementView>, u64),
    > {
        self.financials.contents()
    }

    /// The metrics namespace: (provider, symbol, date) to (metrics, capture
    /// time).
    pub closed spec fn metrics_contents(&self) -> Map<
        (Seq<char>, Seq<char>, Date),
        (KeyMetricsView, u64),
    > {
        self.metrics.contents()
    }

    /// Creates a new empty in-memory cache.
    pub fn new() -> (r: Self)
        ensures
            r.wf(),
            r.ohlcv_contents() =~= Map::<(Seq<char>, Seq<char>, Date, Date), (
                Seq<OhlcvRow>,
                u64,
            )>::empty(),
            r.financials_contents() =~= Map::<(Seq<char>, Seq<char>, PeriodType), (
                Seq<FinancialStatementView>,
                u64,
            )>::empty(),
            r.metrics_contents() =~= Map::<(Seq<char>, Seq<char>, Date), (
                KeyMetricsView,
                u64,
            )>::empty(),
    {
        InMemoryCache { ohlcv: Table::new(), financials: Table::new(), metrics: Table::new() }
    }
}

impl DataCache for InMemoryCache {
    closed spec fn wf(&self) -> bool {
        self.ohlcv.inv() && self.financials.inv() && self.metrics.inv()
    }

    /// Exact-key lookup in the OHLCV namespace; a miss is `Ok(None)` and
    /// never an error.
    fn get_ohlcv(&self, provider: &str, symbol: &Symbol, start: Date, end: Date) -> (r: Result<
        Option<OhlcvSeries>,
        DataError,
    >)
        ensures
            ({
                let key = (provider@, symbol@, start, end);
                &&& r matches Ok(o)
                &&& (o is Some <==> self.ohlcv_contents().contains_key(key))
                &&& (o matches Some(s) ==> s@ == self.ohlcv_contents()[key].0)
            }),
    {
        let key = OhlcvKey {
            provider: provider.to_owned(),
            symbol: symbol.to_text(),
            start,
            end,
        };
        Ok(self.ohlcv.lookup(&key))
    }

    /// Stores the series under the key derived from its actual date extent;
    /// the other namespaces are untouched.
    fn put_ohlcv(&mut self, provider: &str, symbol: &Symbol, data: &OhlcvSeries, now: u64) -> (r:
        Result<(), DataError>)
        ensures
            r is Ok,
            ({
                let range = derived_ohlcv_range(data@);
                final(self).ohlcv_contents() =~= old(self).ohlcv_contents().insert(
                    (provider@, symbol@, range.0, range.1),
                    (data@, now),
                )
            }),
            final(self).financials_contents() == old(self).financials_contents(),
            final(self).metrics_contents() == old(self).metrics_contents(),
    {
        let (start, end) = match (data.min_date(), data.max_date()) {
            (Some(lo), Some(hi)) => (lo, hi),
            _ => (Date::min_value(), Date::max_value()),
        };
        let key = OhlcvKey {
            provider: provider.to_owned(),
            symbol: symbol.to_text(),
            start,
            end,
        };
        self.ohlcv.upsert(key, data.clone(), now);
        Ok(())
    }

    /// Exact-key lookup in the financials namespace; a miss is `Ok(None)`.
    fn get_financials(&self, provider: &str, symbol: &Symbol, period_type: PeriodType) -> (r:
        Result<Option<Vec<FinancialStatement>>, DataError>)
        ensures
            ({
                let key = (provider@, symbol@, period_type);
                &&& r matches Ok(o)
                &&& (o is Some <==> self.financials_contents().contains_key(key))
                &&& (o matches Some(v) ==> v.deep_view() == self.financials_contents()[key].0)
            }),
    {
        let key = FinancialsKey {
            provider: provider.to_owned(),
            symbol: symbol.to_text(),
            period_type,
        };
        Ok(self.financials.lookup(&key))
    }

    /// Splits the statements by period kind and stores one entry per
    /// non-empty kind, quarterly first; annual and quarterly statements
    /// never share a key.
    fn put_financials(
        &mut self,
        provider: &str,
        symbol: &Symbol,
        statements: &[FinancialStatement],
        now: u64,
    ) -> (r: Result<(), DataError>)
        ensures
            r is Ok,
            ({
                let q = quarterly_of(statements.deep_view());
                let a = annual_of(statements.deep_view());
                let with_q = if q.len() > 0 {
                    old(self).financials_contents().insert(
                        (provider@, symbol@, PeriodType::Quarterly),
                        (q, now),
                    )
                } else {
                    old(self).financials_contents()
                };
                let with_a = if a.len() > 0 {
                    with_q.insert((provider@, symbol@, PeriodType::Annual), (a, now))
                } else {
                    with_q
                };
                final(self).financials_contents() =~= with_a
            }),
            final(self).ohlcv_contents() == old(self).ohlcv_contents(),
            final(self).metrics_contents() == old(self).metrics_contents(),
    {
        let mut quarterly: Vec<FinancialStatement> = Vec::new();
        let mut annual: Vec<FinancialStatement> = Vec::new();
        let n = statements.len();
        let mut i: usize = 0;
        proof {
            reveal(Seq::filter);
        }
        #[verifier::loop_isolation(false)]
        while i < n
            invariant
                n == statements.deep_view().len(),
                0 <= i <= n,
                quarterly.deep_view() =~= quarterly_of(statements.deep_view().take(i as int)),
                annual.deep_view() =~= annual_of(statements.deep_view().take(i as int)),
            decreases n - i,
        {
            let ghost pre = statements.deep_view().take(i as int);
            let ghost post = statements.deep_view().take(i + 1);
            proof {
                reveal(Seq::filter);
                assert(post.drop_last() =~= pre);
                assert(post.last() == statements.deep_view()[i as int]);
            }
            let stmt = &statements[i];
            match stmt.period_type {
                PeriodType::Quarterly => {
                    let ghost prev = quarterly.deep_view();
                    quarterly.push(stmt.clone());
                    proof {
                        assert(quarterly.deep_view() =~= prev.push(stmt@));
                    }
                },
                PeriodType::Annual => {
                    let ghost prev = annual.deep_view();
                    annual.push(stmt.clone());
                    proof {
                        assert(annual.deep_view() =~= prev.push(stmt@));
                    }
                },
            }
            i += 1;
        }
        proof {
            assert(statements.deep_view().take(n as int) =~= statements.deep_view());
        }
        if quarterly.len() > 0 {
            let key = FinancialsKey {
                provider: provider.to_owned(),
                symbol: symbol.to_text(),
                period_type: PeriodType::Quarterly,
            };
            self.financials.upsert(key, quarterly, now);
        }
        if annual.len() > 0 {
            let key = FinancialsKey {
                provider: provider.to_owned(),
                symbol: symbol.to_text(),
                period_type: PeriodType::Annual,
            };
            self.financials.upsert(key, annual, now);
        }
        Ok(())
    }

    /// Exact-key lookup in the metrics namespace; a miss is `Ok(None)`.
    fn get_metrics(&self, provider: &str, symbol: &Symbol, date: Date) -> (r: Result<
        Option<KeyMetrics>,
        DataError,
    >)
        ensures
            ({
                let key = (provider@, symbol@, date);
                &&& r matches Ok(o)
                &&& (o is Some <==> self.metrics_contents().contains_key(key))
                &&& (o matches Some(m) ==> m@ == self.metrics_contents()[key].0)
            }),
    {
        let key = MetricsKey {
            provider: provider.to_owned(),
            symbol: symbol.to_text(),
            date,
        };
        Ok(self.metrics.lookup(&key))
    }

    /// Stores the metrics under the record's own date; the other namespaces
    /// are untouched.
    fn put_metrics(&mut self, provider: &str, symbol: &Symbol, metrics: &KeyMetrics, now: u64) -> (
        r: Result<(), DataError>)
        ensures
            r is Ok,
            final(self).metrics_contents() =~= old(self).metrics_contents().insert(
                (provider@, symbol@, metrics.date),
                (metrics@, now),
            ),
            final(self).ohlcv_contents() == old(self).ohlcv_contents(),
            final(self).financials_contents() == old(self).financials_contents(),
    {
        let key = MetricsKey {
            provider: provider.to_owned(),
            symbol: symbol.to_text(),
            date: metrics.date,
        };
        self.metrics.upsert(key, metrics.clone(), now);
        Ok(())
    }

    /// Sweeps all three namespaces, keeping exactly the entries whose age at
    /// `now` does not exceed `ttl`; an entry aged exactly `ttl` is retained.
    /// Succeeds with the total number of removed entries whenever that total
    /// fits in `usize`.
    fn invalidate_stale(&mut self, ttl: u64, now: u64) -> (r: Result<usize, DataError>)
        ensures
            forall|k: (Seq<char>, Seq<char>, Date, Date)|
                #[trigger] final(self).ohlcv_contents().contains_key(k) <==> (old(self).ohlcv_contents().contains_key(k) && !spec_stale(
                    old(self).ohlcv_contents()[k].1,
                    ttl,
                    now,
                )),
            forall|k: (Seq<char>, Seq<char>, Date, Date)|
                final(self).ohlcv_contents().contains_key(k) ==> #[trigger] final(self).ohlcv_contents()[k] == old(self).ohlcv_contents()[k],
            forall|k: (Seq<char>, Seq<char>, PeriodType)|
                #[trigger] final(self).financials_contents().contains_key(k) <==> (old(self).financials_contents().contains_key(k) && !spec_stale(
                    old(self).financials_contents()[k].1,
                    ttl,
                    now,
                )),
            forall|k: (Seq<char>, Seq<char>, PeriodType)|
                final(self).financials_contents().contains_key(k) ==> #[trigger] final(self).financials_contents()[k] == old(self).financials_contents()[k],
            forall|k: (Seq<char>, Seq<char>, Date)|
                #[trigger] final(self).metrics_contents().contains_key(k) <==> (old(self).metrics_contents().contains_key(k) && !spec_stale(
                    old(self).metrics_contents()[k].1,
                    ttl,
                    now,
                )),
            forall|k: (Seq<char>, Seq<char>, Date)|
                final(self).metrics_contents().contains_key(k) ==> #[trigger] final(self).metrics_contents()[k] == old(self).metrics_contents()[k],
            r matches Ok(c) ==> c + final(self).ohlcv_contents().dom().len() + final(self).financials_contents().dom().len() + final(self).metrics_contents().dom().len() == old(self).ohlcv_contents().dom().len() + old(self).financials_contents().dom().len() + old(self).metrics_contents().dom().len(),
            r is Err ==> old(self).ohlcv_contents().dom().len() + old(self).financials_contents().dom().len() + old(self).metrics_contents().dom().len()
                > usize::MAX,
    {
        let a = self.ohlcv.retain_fresh(ttl, now);
        let b = self.financials.retain_fresh(ttl, now);
        let c = self.metrics.retain_fresh(ttl, now);
        let ab = match a.checked_add(b) {
            Some(v) => v,
            None => {
                return Err(DataError::Cache(String::from_str("entry count overflow")));
            },
        };
        match ab.checked_add(c) {
            Some(v) => Ok(v),
            None => Err(DataError::Cache(String::from_str("entry count overflow"))),
        }
    }

    /// Empties all three namespaces.
    fn clear(&mut self) -> (r: Result<(), DataError>)
        ensures
            r is Ok,
            final(self).ohlcv_contents() =~= Map::<(Seq<char>, Seq<char>, Date, Date), (
                Seq<OhlcvRow>,
                u64,
            )>::empty(),
            final(self).financials_contents() =~= Map::<(Seq<char>, Seq<char>, PeriodType), (
                Seq<FinancialStatementView>,
                u64,
            )>::empty(),
            final(self).metrics_contents() =~= Map::<(Seq<char>, Seq<char>, Date), (
                KeyMetricsView,
                u64,
            )>::empty(),
    {
        self.ohlcv.clear();
        self.financials.clear();
        self.metrics.clear();
        Ok(())
    }
}

} // verus!
