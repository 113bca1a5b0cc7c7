//! A caching and fallback orchestration layer for market and fundamental data.
//!
//! The crate centres on a cache abstraction ([`cache::DataCache`]) with three
//! interchangeable backends — a volatile in-memory table set
//! ([`memory::InMemoryCache`]), a persistent SQLite-backed store
//! ([`sqlite::SqliteCache`]) and a disabled no-op variant
//! ([`noop::NoopCache`]) — plus a registry
//! ([`registry::DataProviderRegistry`]) that aggregates capability-typed data
//! sources and arbitrates between them with cache-first lookup and ordered
//! fallback on failure.

pub mod blob;
pub mod cache;
pub mod codec;
pub mod company;
pub mod date;
pub mod error;
pub mod frequency;
pub mod ibkr;
pub mod laws;
pub mod memory;
pub mod nasdaq;
pub mod noop;
pub mod provider;
pub mod metrics;
pub mod registry;
pub mod series;
pub mod sqlite;
pub mod statement;
pub mod symbol;
pub mod table;
pub mod tick;
pub mod xbrl;

pub use cache::{CacheEntry, DataCache};
pub use company::CompanyInfo;
pub use date::Date;
pub use error::DataError;
pub use frequency::{DataFrequency, PeriodType};
pub use ibkr::IbkrProvider;
pub use memory::InMemoryCache;
pub use nasdaq::NasdaqProvider;
pub use noop::NoopCache;
pub use provider::{DataProvider, FundamentalDataProvider, PriceDataProvider, ReferenceDataProvider, TickDataProvider};
pub use metrics::KeyMetrics;
pub use registry::DataProviderRegistry;
pub use series::{F64Bits, OhlcvRow, OhlcvSeries};
pub use sqlite::SqliteCache;
pub use statement::FinancialStatement;
pub use symbol::Symbol;
pub use tick::{Tick, TickData};
pub use xbrl::get_xbrl_tags;
