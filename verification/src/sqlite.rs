//! The persistent SQLite-backed cache backend.
//!
//! A fixed three-table schema, one table per cache kind, all columns text:
//! OHLCV rows keyed by (provider, symbol, date), financial statements keyed
//! by (provider, symbol, period end, period kind) with the full record in a
//! blob column plus promoted fiscal-year and fiscal-quarter columns, and
//! metrics keyed by (provider, symbol, date). Every table carries a capture
//! timestamp column for TTL sweeps. Dates and timestamps are rendered in
//! fixed-width encodings whose text order matches their numeric order —
//! proved by [`crate::blob::lemma_date_text_order`] and
//! [`crate::blob::lemma_bits_text_order`] — so SQL range comparisons on
//! them agree with the intended order.
//!
//! All access goes through one connection; multi-row puts run inside one
//! transaction. What SQLite itself does is trusted through the narrow
//! wrappers below; everything around them — key rendering, record encoding
//! and decoding — is verified, and the codec round trip is proved in
//! [`crate::blob`].

use vstd::prelude::*;

use crate::blob::{bits_field, date_field, date_parse, bits_parse, opt_bits_parse, decode_metrics,
    decode_statement, encode_statement, opt_bits_field, opt_i32_field,
    parse_date_field, parse_bits_field, parse_opt_bits_field, ptype_field, stmt_parse};
use crate::cache::{spec_stale, DataCache};
use crate::date::Date;
use crate::error::DataError;
use crate::frequency::PeriodType;
use crate::metrics::KeyMetrics;
use crate::series::{OhlcvRow, OhlcvSeries};
use crate::statement::{FinancialStatement, FinancialStatementView};
use crate::symbol::Symbol;

verus! {

#[verifier::external_type_specification]
#[verifier::external_body]
/// A SQLite database connection (rusqlite's), opaque to verification.
pub struct ExConnection(rusqlite::Connection);

/// Relies on rusqlite's `Connection::open_in_memory`: opens a fresh
/// in-memory database.
#[verifier::external_body]
fn sql_open_memory() -> (r: Result<rusqlite::Connection, String>) {
    rusqlite::Connection::open_in_memory().map_err(|e| e.to_string())
}

/// Relies on rusqlite's `Connection::open`: opens (creating if absent) the
/// database file at the given path.
#[verifier::external_body]
fn sql_open(path: &str) -> (r: Result<rusqlite::Connection, String>) {
    rusqlite::Connection::open(path).map_err(|e| e.to_string())
}

/// Relies on rusqlite's `Connection::execute`: runs one SQL statement that
/// returns no rows, binding the given positional text parameters, and
/// reports the number of rows changed.
#[verifier::external_body]
fn sql_execute(conn: &rusqlite::Connection, sql: &str, params: &Vec<String>) -> (r: Result<
    usize,
    String,
>) {
    conn.execute(sql, rusqlite::params_from_iter(params.iter())).map_err(|e| e.to_string())
}

/// Relies on rusqlite's `Connection::prepare` and `Statement::query_map`:
/// runs one SQL query with positional text parameters and hands back each
/// result row's first `ncols` columns as text, in result order.
#[verifier::external_body]
fn sql_query(conn: &rusqlite::Connection, sql: &str, params: &Vec<String>, ncols: usize) -> (r:
    Result<Vec<Vec<String>>, String>)
    ensures
        r matches Ok(rows) ==> forall|i: int| 0 <= i < rows.len() ==> (#[trigger] rows[i])@.len()
            == ncols,
{
    let mut stmt = conn.prepare(sql).map_err(|e| e.to_string())?;
    let mapped = stmt.query_map(rusqlite::params_from_iter(params.iter()), |row| {
        (0..ncols).map(|i| row.get::<usize, String>(i)).collect()
    }).map_err(|e| e.to_string())?;
    let mut rows: Vec<Vec<String>> = Vec::new();
    for r in mapped {
        rows.push(r.map_err(|e| e.to_string())?);
    }
    Ok(rows)
}

/// The OHLCV bar one result row's column texts denote: date, open, high,
/// low, close, volume, adjusted close.
pub open spec fn ohlcv_row_parse(cols: Seq<Seq<char>>) -> Option<OhlcvRow> {
    if cols.len() != 7 {
        None
    } else {
        match (date_parse(cols[0]), bits_parse(cols[1]), bits_parse(cols[2]), bits_parse(cols[3]),
        bits_parse(cols[4]), bits_parse(cols[5]), opt_bits_parse(cols[6])) {
            (Some(d), Some(o), Some(h), Some(l), Some(c), Some(v), Some(a)) => Some(
                OhlcvRow {
                    date: d,
                    open: crate::series::F64Bits(o),
                    high: crate::series::F64Bits(h),
                    low: crate::series::F64Bits(l),
                    close: crate::series::F64Bits(c),
                    volume: crate::series::F64Bits(v),
                    adjusted_close: a,
                },
            ),
            _ => None,
        }
    }
}

/// The bar sequence a list of result rows denotes, or `None` when any row
/// is malformed.
pub open spec fn ohlcv_rows_parse(rows: Seq<Seq<Seq<char>>>) -> Option<Seq<OhlcvRow>>
    decreases rows.len(),
{
    if rows.len() == 0 {
        Some(Seq::empty())
    } else {
        match (ohlcv_rows_parse(rows.drop_last()), ohlcv_row_parse(rows.last())) {
            (Some(rest), Some(row)) => Some(rest.push(row)),
            _ => None,
        }
    }
}

/// When a row list parses, every row of it parses to the corresponding bar.
proof fn lemma_ohlcv_rows_parse_each(rows: Seq<Seq<Seq<char>>>)
    ensures
        ohlcv_rows_parse(rows) matches Some(bars) ==> bars.len() == rows.len() && forall|i: int|
            0 <= i < rows.len() ==> ohlcv_row_parse(#[trigger] rows[i]) == Some(bars[i]),
    decreases rows.len(),
{
    if rows.len() > 0 {
        lemma_ohlcv_rows_parse_each(rows.drop_last());
        if ohlcv_rows_parse(rows) is Some {
            let bars = ohlcv_rows_parse(rows)->Some_0;
            assert forall|i: int| 0 <= i < rows.len() implies ohlcv_row_parse(
                #[trigger] rows[i],
            ) == Some(bars[i]) by {
                if i < rows.len() - 1 {
                    assert(rows.drop_last()[i] == rows[i]);
                }
            }
        }
    }
}

/// Parses one result row's column texts into an OHLCV bar.
pub fn parse_ohlcv_row(cols: &Vec<String>) -> (r: Option<OhlcvRow>)
    ensures
        r == ohlcv_row_parse(cols.deep_view()),
{
    if cols.len() != 7 {
        return None;
    }
    let d = match parse_date_field(cols[0].as_str()) {
        Some(v) => v,
        None => {
            return None;
        },
    };
    let o = match parse_bits_field(cols[1].as_str()) {
        Some(v) => v,
        None => {
            return None;
        },
    };
    let h = match parse_bits_field(cols[2].as_str()) {
        Some(v) => v,
        None => {
            return None;
        },
    };
    let l = match parse_bits_field(cols[3].as_str()) {
        Some(v) => v,
        None => {
            return None;
        },
    };
    let c = match parse_bits_field(cols[4].as_str()) {
        Some(v) => v,
        None => {
            return None;
        },
    };
    let v = match parse_bits_field(cols[5].as_str()) {
        Some(v) => v,
        None => {
            return None;
        },
    };
    let a = match parse_opt_bits_field(cols[6].as_str()) {
        Some(v) => v,
        None => {
            return None;
        },
    };
    Some(
        OhlcvRow {
            date: d,
            open: crate::series::F64Bits(o),
            high: crate::series::F64Bits(h),
            low: crate::series::F64Bits(l),
            close: crate::series::F64Bits(c),
            volume: crate::series::F64Bits(v),
            adjusted_close: a,
        },
    )
}

/// Parses a list of result rows into an OHLCV series; exact in both
/// directions: the result is the denoted bar sequence, and `None` exactly
/// when some row is malformed.
pub fn ohlcv_rows_to_series(rows: &Vec<Vec<String>>) -> (r: Option<OhlcvSeries>)
    ensures
        r is Some <==> ohlcv_rows_parse(rows.deep_view()) is Some,
        r matches Some(s) ==> ohlcv_rows_parse(rows.deep_view()) == Some(s@),
{
    let n = rows.len();
    let mut series = OhlcvSeries::new();
    let mut i: usize = 0;
    #[verifier::loop_isolation(false)]
    while i < n
        invariant
            0 <= i <= n,
            n == rows.deep_view().len(),
            ohlcv_rows_parse(rows.deep_view().take(i as int)) == Some(series@),
        decreases n - i,
    {
        proof {
            assert(rows.deep_view().take(i + 1).drop_last() =~= rows.deep_view().take(i as int));
            assert(rows.deep_view().take(i + 1).last() == rows.deep_view()[i as int]);
        }
        match parse_ohlcv_row(&rows[i]) {
            Some(row) => {
                series.push(row);
            },
            None => {
                proof {
                    lemma_ohlcv_rows_parse_each(rows.deep_view());
                    if ohlcv_rows_parse(rows.deep_view()) is Some {
                        assert(false);
                    }
                }
                return None;
            },
        }
        i += 1;
    }
    proof {
        assert(rows.deep_view().take(n as int) =~= rows.deep_view());
    }
    Some(series)
}

/// The statement sequence a list of blob rows denotes, or `None` when any
/// blob is malformed.
pub open spec fn stmt_rows_parse(rows: Seq<Seq<char>>) -> Option<Seq<FinancialStatementView>>
    decreases rows.len(),
{
    if rows.len() == 0 {
        Some(Seq::empty())
    } else {
        match (stmt_rows_parse(rows.drop_last()), stmt_parse(rows.last())) {
            (Some(rest), Some(v)) => Some(rest.push(v)),
            _ => None,
        }
    }
}

/// When a blob list parses, every blob of it parses to the corresponding
/// statement.
proof fn lemma_stmt_rows_parse_each(rows: Seq<Seq<char>>)
    ensures
        stmt_rows_parse(rows) matches Some(vs) ==> vs.len() == rows.len() && forall|i: int|
            0 <= i < rows.len() ==> stmt_parse(#[trigger] rows[i]) == Some(vs[i]),
    decreases rows.len(),
{
    if rows.len() > 0 {
        lemma_stmt_rows_parse_each(rows.drop_last());
        if stmt_rows_parse(rows) is Some {
            let vs = stmt_rows_parse(rows)->Some_0;
            assert forall|i: int| 0 <= i < rows.len() implies stmt_parse(#[trigger] rows[i])
                == Some(vs[i]) by {
                if i < rows.len() - 1 {
                    assert(rows.drop_last()[i] == rows[i]);
                }
            }
        }
    }
}

/// Decodes a list of one-column blob rows into financial statements; exact
/// in both directions.
pub fn stmt_rows_to_statements(rows: &Vec<Vec<String>>) -> (r: Option<Vec<FinancialStatement>>)
    requires
        forall|i: int| 0 <= i < rows@.len() ==> (#[trigger] rows[i])@.len() == 1,
    ensures
        ({
            let blobs = Seq::new(rows.deep_view().len(), |i: int| rows.deep_view()[i][0]);
            &&& (r is Some <==> stmt_rows_parse(blobs) is Some)
            &&& (r matches Some(v) ==> stmt_rows_parse(blobs) == Some(v.deep_view())
                && v@.len() == rows@.len())
        }),
{
    let ghost blobs = Seq::new(rows.deep_view().len(), |i: int| rows.deep_view()[i][0]);
    let n = rows.len();
    let mut out: Vec<FinancialStatement> = Vec::new();
    let mut i: usize = 0;
    #[verifier::loop_isolation(false)]
    while i < n
        invariant
            0 <= i <= n,
            n == rows.deep_view().len(),
            out@.len() == i,
            stmt_rows_parse(blobs.take(i as int)) == Some(out.deep_view()),
        decreases n - i,
    {
        proof {
            assert(blobs.take(i + 1).drop_last() =~= blobs.take(i as int));
            assert(blobs.take(i + 1).last() == blobs[i as int]);
            assert(rows[i as int]@.len() == 1);
            assert(blobs[i as int] == rows.deep_view()[i as int][0]);
        }
        match decode_statement(rows[i][0].as_str()) {
            Some(st) => {
                let ghost prev = out.deep_view();
                out.push(st);
                proof {
                    assert(out.deep_view() =~= prev.push(out@.last()@));
                }
            },
            None => {
                proof {
                    lemma_stmt_rows_parse_each(blobs);
                    if stmt_rows_parse(blobs) is Some {
                        assert(false);
                    }
                }
                return None;
            },
        }
        i += 1;
    }
    proof {
        assert(blobs.take(n as int) =~= blobs);
    }
    Some(out)
}

/// The capture-time cutoff of a TTL sweep at `now`: a capture timestamp is
/// strictly below it exactly when the entry it stamps is stale. This pins
/// the deletion bound handed to the sweep's SQL to the strict TTL boundary.
pub fn stale_cutoff(ttl: u64, now: u64) -> (c: u64)
    ensures
        forall|t: u64| (t < c) == spec_stale(t, ttl, now),
{
    if now > ttl {
        now - ttl
    } else {
        0
    }
}

/// SQLite-backed cache for market data, persistent across restarts.
pub struct SqliteCache {
    conn: rusqlite::Connection,
}

impl SqliteCache {
    /// Runs the schema statements: three tables, one per cache kind, plus
    /// lookup indexes.
    fn initialize_schema(&self) -> (r: Result<(), DataError>)
        ensures
            r matches Err(e) ==> e is Cache,
    {
        let empty: Vec<String> = Vec::new();
        let stmts = [
            "CREATE TABLE IF NOT EXISTS ohlcv_cache (
                provider TEXT NOT NULL,
                symbol TEXT NOT NULL,
                date TEXT NOT NULL,
                open TEXT NOT NULL,
                high TEXT NOT NULL,
                low TEXT NOT NULL,
                close TEXT NOT NULL,
                volume TEXT NOT NULL,
                adjusted_close TEXT NOT NULL,
                cached_at TEXT NOT NULL,
                PRIMARY KEY (provider, symbol, date)
            )",
            "CREATE INDEX IF NOT EXISTS idx_ohlcv_provider_symbol_date
             ON ohlcv_cache(provider, symbol, date)",
            "CREATE TABLE IF NOT EXISTS financials_cache (
                provider TEXT NOT NULL,
                symbol TEXT NOT NULL,
                period_end TEXT NOT NULL,
                period_type TEXT NOT NULL,
                fiscal_year TEXT NOT NULL,
                fiscal_quarter TEXT NOT NULL,
                data_blob TEXT NOT NULL,
                cached_at TEXT NOT NULL,
                PRIMARY KEY (provider, symbol, period_end, period_type)
            )",
            "CREATE INDEX IF NOT EXISTS idx_financials_provider_symbol
             ON financials_cache(provider, symbol)",
            "CREATE TABLE IF NOT EXISTS metrics_cache (
                provider TEXT NOT NULL,
                symbol TEXT NOT NULL,
                date TEXT NOT NULL,
                data_blob TEXT NOT NULL,
                cached_at TEXT NOT NULL,
                PRIMARY KEY (provider, symbol, date)
            )",
            "CREATE INDEX IF NOT EXISTS idx_metrics_provider_symbol
             ON metrics_cache(provider, symbol)",
        ];
        let mut i: usize = 0;
        while i < 6
            decreases 6 - i,
        {
            if let Err(e) = sql_execute(&self.conn, stmts[i], &empty) {
                return Err(DataError::Cache(e));
            }
            i += 1;
        }
        Ok(())
    }

    /// Creates a new SQLite cache stored in the database file at `path`,
    /// creating the file and the schema as needed.
    pub fn new(path: &str) -> (r: Result<Self, DataError>)
        ensures
            r matches Ok(c) ==> c.wf(),
            r matches Err(e) ==> e is Cache,
    {
        let conn = match sql_open(path) {
            Ok(c) => c,
            Err(e) => {
                return Err(DataError::Cache(e));
            },
        };
        let cache = SqliteCache { conn };
        match cache.initialize_schema() {
            Ok(()) => Ok(cache),
            Err(e) => Err(e),
        }
    }

    /// Creates an in-memory SQLite cache; data is lost when it is dropped.
    pub fn in_memory() -> (r: Result<Self, DataError>)
        ensures
            r matches Ok(c) ==> c.wf(),
            r matches Err(e) ==> e is Cache,
    {
        let conn = match sql_open_memory() {
            Ok(c) => c,
            Err(e) => {
                return Err(DataError::Cache(e));
            },
        };
        let cache = SqliteCache { conn };
        match cache.initialize_schema() {
            Ok(()) => Ok(cache),
            Err(e) => Err(e),
        }
    }
}

impl DataCache for SqliteCache {
    open spec fn wf(&self) -> bool {
        true
    }

    /// Range scan ordered by date; reconstructs the series from the stored
    /// rows. An empty result is a miss, a malformed row a `Cache` error.
    fn get_ohlcv(&self, provider: &str, symbol: &Symbol, start: Date, end: Date) -> (r: Result<
        Option<OhlcvSeries>,
        DataError,
    >)
        ensures
            r matches Ok(Some(s)) ==> s@.len() > 0,
            r matches Err(e) ==> e is Cache,
    {
        let mut params: Vec<String> = Vec::new();
        params.push(provider.to_owned());
        params.push(symbol.to_text());
        params.push(date_field(start));
        params.push(date_field(end));
        let rows = match sql_query(
            &self.conn,
            "SELECT date, open, high, low, close, volume, adjusted_close
             FROM ohlcv_cache
             WHERE provider = ?1 AND symbol = ?2 AND date >= ?3 AND date <= ?4
             ORDER BY date ASC",
            &params,
            7,
        ) {
            Ok(rows) => rows,
            Err(e) => {
                return Err(DataError::Cache(e));
            },
        };
        if rows.len() == 0 {
            return Ok(None);
        }
        match ohlcv_rows_to_series(&rows) {
            Some(series) => Ok(Some(series)),
            None => Err(DataError::Cache(String::from_str("malformed OHLCV row"))),
        }
    }

    /// Upserts one row per bar inside one transaction: all rows become
    /// visible or none.
    fn put_ohlcv(&mut self, provider: &str, symbol: &Symbol, data: &OhlcvSeries, now: u64) -> (r:
        Result<(), DataError>)
        ensures
            r matches Err(e) ==> e is Cache,
    {
        let empty: Vec<String> = Vec::new();
        if let Err(e) = sql_execute(&self.conn, "BEGIN", &empty) {
            return Err(DataError::Cache(e));
        }
        let n = data.len();
        let mut i: usize = 0;
        while i < n
            invariant
                n == data@.len(),
                0 <= i <= n,
            decreases n - i,
        {
            let row = data.rows[i];
            let mut params: Vec<String> = Vec::new();
            params.push(provider.to_owned());
            params.push(symbol.to_text());
            params.push(date_field(row.date));
            params.push(bits_field(row.open.0));
            params.push(bits_field(row.high.0));
            params.push(bits_field(row.low.0));
            params.push(bits_field(row.close.0));
            params.push(bits_field(row.volume.0));
            params.push(opt_bits_field(row.adjusted_close));
            params.push(bits_field(now));
            if let Err(e) = sql_execute(
                &self.conn,
                "INSERT OR REPLACE INTO ohlcv_cache
                 (provider, symbol, date, open, high, low, close, volume, adjusted_close, cached_at)
                 VALUES (?1, ?2, ?3, ?4, ?5, ?6, ?7, ?8, ?9, ?10)",
                &params,
            ) {
                let _ = sql_execute(&self.conn, "ROLLBACK", &empty);
                return Err(DataError::Cache(e));
            }
            i += 1;
        }
        if let Err(e) = sql_execute(&self.conn, "COMMIT", &empty) {
            return Err(DataError::Cache(e));
        }
        Ok(())
    }

    /// Returns all statements for the key, most recent period first; an
    /// empty result is a miss, a malformed blob a `Parse` error.
    fn get_financials(&self, provider: &str, symbol: &Symbol, period_type: PeriodType) -> (r:
        Result<Option<Vec<FinancialStatement>>, DataError>)
        ensures
            r matches Ok(Some(v)) ==> v@.len() > 0,
            r matches Err(e) ==> e is Cache || e is Parse,
    {
        let mut params: Vec<String> = Vec::new();
        params.push(provider.to_owned());
        params.push(symbol.to_text());
        params.push(ptype_field(period_type));
        let rows = match sql_query(
            &self.conn,
            "SELECT data_blob FROM financials_cache
             WHERE provider = ?1 AND symbol = ?2 AND period_type = ?3
             ORDER BY period_end DESC",
            &params,
            1,
        ) {
            Ok(rows) => rows,
            Err(e) => {
                return Err(DataError::Cache(e));
            },
        };
        if rows.len() == 0 {
            return Ok(None);
        }
        match stmt_rows_to_statements(&rows) {
            Some(statements) => Ok(Some(statements)),
            None => Err(DataError::Parse(String::from_str("malformed statement blob"))),
        }
    }

    /// Upserts one row per statement inside one transaction, keyed by the
    /// statement's own period end and kind.
    fn put_financials(
        &mut self,
        provider: &str,
        symbol: &Symbol,
        statements: &[FinancialStatement],
        now: u64,
    ) -> (r: Result<(), DataError>)
        ensures
            r matches Err(e) ==> e is Cache,
    {
        let empty: Vec<String> = Vec::new();
        if let Err(e) = sql_execute(&self.conn, "BEGIN", &empty) {
            return Err(DataError::Cache(e));
        }
        let n = statements.len();
        let mut i: usize = 0;
        while i < n
            invariant
                n == statements@.len(),
                0 <= i <= n,
            decreases n - i,
        {
            let stmt = &statements[i];
            let mut params: Vec<String> = Vec::new();
            params.push(provider.to_owned());
            params.push(symbol.to_text());
            params.push(date_field(stmt.period_end));
            params.push(ptype_field(stmt.period_type));
            params.push(opt_i32_field(stmt.fiscal_year));
            params.push(opt_i32_field(stmt.fiscal_quarter));
            params.push(encode_statement(stmt));
            params.push(bits_field(now));
            if let Err(e) = sql_execute(
                &self.conn,
                "INSERT OR REPLACE INTO financials_cache
                 (provider, symbol, period_end, period_type, fiscal_year, fiscal_quarter, data_blob, cached_at)
                 VALUES (?1, ?2, ?3, ?4, ?5, ?6, ?7, ?8)",
                &params,
            ) {
                let _ = sql_execute(&self.conn, "ROLLBACK", &empty);
                return Err(DataError::Cache(e));
            }
            i += 1;
        }
        if let Err(e) = sql_execute(&self.conn, "COMMIT", &empty) {
            return Err(DataError::Cache(e));
        }
        Ok(())
    }

    /// Single-row point lookup; a malformed blob is a `Parse` error.
    fn get_metrics(&self, provider: &str, symbol: &Symbol, date: Date) -> (r: Result<
        Option<KeyMetrics>,
        DataError,
    >)
        ensures
            r matches Err(e) ==> e is Cache || e is Parse,
    {
        let mut params: Vec<String> = Vec::new();
        params.push(provider.to_owned());
        params.push(symbol.to_text());
        params.push(date_field(date));
        let rows = match sql_query(
            &self.conn,
            "SELECT data_blob FROM metrics_cache
             WHERE provider = ?1 AND symbol = ?2 AND date = ?3",
            &params,
            1,
        ) {
            Ok(rows) => rows,
            Err(e) => {
                return Err(DataError::Cache(e));
            },
        };
        if rows.len() == 0 {
            return Ok(None);
        }
        match decode_metrics(rows[0][0].as_str()) {
            Some(metrics) => Ok(Some(metrics)),
            None => Err(DataError::Parse(String::from_str("malformed metrics blob"))),
        }
    }

    /// Upserts the record under the record's own date.
    fn put_metrics(&mut self, provider: &str, symbol: &Symbol, metrics: &KeyMetrics, now: u64) -> (
        r: Result<(), DataError>)
        ensures
            r matches Err(e) ==> e is Cache,
    {
        let mut params: Vec<String> = Vec::new();
        params.push(provider.to_owned());
        params.push(symbol.to_text());
        params.push(date_field(metrics.date));
        params.push(crate::blob::encode_metrics(metrics));
        params.push(bits_field(now));
        match sql_execute(
            &self.conn,
            "INSERT OR REPLACE INTO metrics_cache
             (provider, symbol, date, data_blob, cached_at)
             VALUES (?1, ?2, ?3, ?4, ?5)",
            &params,
        ) {
            Ok(_) => Ok(()),
            Err(e) => Err(DataError::Cache(e)),
        }
    }

    /// One delete per table keyed on the capture-time cutoff computed by
    /// [`stale_cutoff`]: an entry is removed exactly when its age strictly
    /// exceeds `ttl`. Returns the total rows deleted as SQLite reports them.
    fn invalidate_stale(&mut self, ttl: u64, now: u64) -> (r: Result<usize, DataError>)
        ensures
            r matches Err(e) ==> e is Cache,
    {
        let cutoff = stale_cutoff(ttl, now);
        let mut params: Vec<String> = Vec::new();
        params.push(bits_field(cutoff));
        let a = match sql_execute(
            &self.conn,
            "DELETE FROM ohlcv_cache WHERE cached_at < ?1",
            &params,
        ) {
            Ok(c) => c,
            Err(e) => {
                return Err(DataError::Cache(e));
            },
        };
        let b = match sql_execute(
            &self.conn,
            "DELETE FROM financials_cache WHERE cached_at < ?1",
            &params,
        ) {
            Ok(c) => c,
            Err(e) => {
                return Err(DataError::Cache(e));
            },
        };
        let c = match sql_execute(
            &self.conn,
            "DELETE FROM metrics_cache WHERE cached_at < ?1",
            &params,
        ) {
            Ok(c) => c,
            Err(e) => {
                return Err(DataError::Cache(e));
            },
        };
        let ab = match a.checked_add(b) {
            Some(v) => v,
            None => {
                return Err(DataError::Cache(String::from_str("entry count overflow")));
            },
        };
        match ab.checked_add(c) {
            Some(v) => Ok(v),
            None => Err(DataError::Cache(String::from_str("entry count overflow"))),
        }
    }

    /// One delete-all per table.
    fn clear(&mut self) -> (r: Result<(), DataError>)
        ensures
            r matches Err(e) ==> e is Cache,
    {
        let empty: Vec<String> = Vec::new();
        if let Err(e) = sql_execute(&self.conn, "DELETE FROM ohlcv_cache", &empty) {
            return Err(DataError::Cache(e));
        }
        if let Err(e) = sql_execute(&self.conn, "DELETE FROM financials_cache", &empty) {
            return Err(DataError::Cache(e));
        }
        if let Err(e) = sql_execute(&self.conn, "DELETE FROM metrics_cache", &empty) {
            return Err(DataError::Cache(e));
        }
        Ok(())
    }
}

} // verus!
