//! The laws the cache layer obeys, stated over the backends' mathematical
//! contents and proved once and for all.
//!
//! Each law is phrased over the state maps that the backend operations'
//! contracts speak of: a hypothesis of the shape of an operation's
//! postcondition, and a conclusion about what a later lookup of that state
//! denotes.

use vstd::prelude::*;

use crate::cache::spec_stale;
use crate::date::Date;
use crate::memory::{annual_of, derived_ohlcv_range, quarterly_of, InMemoryCache};
use crate::metrics::KeyMetricsView;
use crate::series::OhlcvRow;
use crate::statement::FinancialStatementView;
use crate::frequency::PeriodType;

verus! {

/// Round trip for metrics: after a put of `metrics` under (provider,
/// symbol) — which stores under the record's own date — a get with the same
/// provider, symbol and date denotes exactly the stored record.
pub proof fn lemma_metrics_round_trip(
    pre: InMemoryCache,
    post: InMemoryCache,
    provider: Seq<char>,
    symbol: Seq<char>,
    metrics: KeyMetricsView,
    now: u64,
)
    requires
        post.metrics_contents() == pre.metrics_contents().insert(
            (provider, symbol, metrics.date),
            (metrics, now),
        ),
    ensures
        post.metrics_contents().contains_key((provider, symbol, metrics.date)),
        post.metrics_contents()[(provider, symbol, metrics.date)].0 == metrics,
{
}

/// Round trip for OHLCV series: after a put of `rows` under (provider,
/// symbol) — which stores under the series' actual date extent — a get with
/// that derived range denotes exactly the stored series.
pub proof fn lemma_ohlcv_round_trip(
    pre: InMemoryCache,
    post: InMemoryCache,
    provider: Seq<char>,
    symbol: Seq<char>,
    rows: Seq<OhlcvRow>,
    now: u64,
)
    requires
        post.ohlcv_contents() == pre.ohlcv_contents().insert(
            (provider, symbol, derived_ohlcv_range(rows).0, derived_ohlcv_range(rows).1),
            (rows, now),
        ),
    ensures
        post.ohlcv_contents().contains_key(
            (provider, symbol, derived_ohlcv_range(rows).0, derived_ohlcv_range(rows).1),
        ),
        post.ohlcv_contents()[(provider, symbol, derived_ohlcv_range(rows).0, derived_ohlcv_range(
            rows,
        ).1)].0 == rows,
{
}

/// Round trip and isolation for financials: after a put of `stmts` under
/// (provider, symbol) — which splits by period kind — the quarterly key
/// denotes exactly the quarterly statements and the annual key exactly the
/// annual ones; a put that carries no statements of one kind leaves that
/// kind's entry untouched, so annual and quarterly never overwrite each
/// other.
pub proof fn lemma_financials_round_trip_and_isolation(
    pre: InMemoryCache,
    post: InMemoryCache,
    provider: Seq<char>,
    symbol: Seq<char>,
    stmts: Seq<FinancialStatementView>,
    now: u64,
)
    requires
        post.financials_contents() == ({
            let q = quarterly_of(stmts);
            let a = annual_of(stmts);
            let with_q = if q.len() > 0 {
                pre.financials_contents().insert((provider, symbol, PeriodType::Quarterly), (q, now))
            } else {
                pre.financials_contents()
            };
            if a.len() > 0 {
                with_q.insert((provider, symbol, PeriodType::Annual), (a, now))
            } else {
                with_q
            }
        }),
    ensures
        quarterly_of(stmts).len() > 0 ==> post.financials_contents().contains_key(
            (provider, symbol, PeriodType::Quarterly),
        ) && post.financials_contents()[(provider, symbol, PeriodType::Quarterly)].0
            == quarterly_of(stmts),
        annual_of(stmts).len() > 0 ==> post.financials_contents().contains_key(
            (provider, symbol, PeriodType::Annual),
        ) && post.financials_contents()[(provider, symbol, PeriodType::Annual)].0 == annual_of(
            stmts,
        ),
        quarterly_of(stmts).len() == 0 ==> post.financials_contents().contains_key(
            (provider, symbol, PeriodType::Quarterly),
        ) == pre.financials_contents().contains_key((provider, symbol, PeriodType::Quarterly))
            && (pre.financials_contents().contains_key((provider, symbol, PeriodType::Quarterly))
            ==> post.financials_contents()[(provider, symbol, PeriodType::Quarterly)]
            == pre.financials_contents()[(provider, symbol, PeriodType::Quarterly)]),
        annual_of(stmts).len() == 0 ==> post.financials_contents().contains_key(
            (provider, symbol, PeriodType::Annual),
        ) == pre.financials_contents().contains_key((provider, symbol, PeriodType::Annual)) && (
        pre.financials_contents().contains_key((provider, symbol, PeriodType::Annual))
            ==> post.financials_contents()[(provider, symbol, PeriodType::Annual)]
            == pre.financials_contents()[(provider, symbol, PeriodType::Annual)]),
{
}

/// The TTL boundary is strict: an entry aged exactly `ttl` at `now` is not
/// stale and is retained by an invalidation sweep; an entry older by any
/// amount is stale and removed.
pub proof fn lemma_ttl_boundary(cached_at: u64, ttl: u64, now: u64)
    ensures
        now == cached_at + ttl ==> !spec_stale(cached_at, ttl, now),
        now > cached_at + ttl ==> spec_stale(cached_at, ttl, now),
{
}

/// Clearing is idempotent: any two cleared caches denote the same (empty)
/// contents, and every lookup of a cleared cache misses.
pub proof fn lemma_clear_idempotent(c1: InMemoryCache, c2: InMemoryCache)
    requires
        c1.ohlcv_contents() =~= Map::<(Seq<char>, Seq<char>, Date, Date), (
            Seq<OhlcvRow>,
            u64,
        )>::empty(),
        c1.financials_contents() =~= Map::<(Seq<char>, Seq<char>, PeriodType), (
            Seq<FinancialStatementView>,
            u64,
        )>::empty(),
        c1.metrics_contents() =~= Map::<(Seq<char>, Seq<char>, Date), (
            KeyMetricsView,
            u64,
        )>::empty(),
        c2.ohlcv_contents() =~= Map::<(Seq<char>, Seq<char>, Date, Date), (
            Seq<OhlcvRow>,
            u64,
        )>::empty(),
        c2.financials_contents() =~= Map::<(Seq<char>, Seq<char>, PeriodType), (
            Seq<FinancialStatementView>,
            u64,
        )>::empty(),
        c2.metrics_contents() =~= Map::<(Seq<char>, Seq<char>, Date), (
            KeyMetricsView,
            u64,
        )>::empty(),
    ensures
        c1.ohlcv_contents() == c2.ohlcv_contents(),
        c1.financials_contents() == c2.financials_contents(),
        c1.metrics_contents() == c2.metrics_contents(),
        forall|k: (Seq<char>, Seq<char>, Date, Date)| !c1.ohlcv_contents().contains_key(k),
        forall|k: (Seq<char>, Seq<char>, PeriodType)| !c1.financials_contents().contains_key(k),
        forall|k: (Seq<char>, Seq<char>, Date)| !c1.metrics_contents().contains_key(k),
{
}

} // verus!
