//! Error types for data operations.

use vstd::prelude::*;

verus! {

/// Errors that can occur during data operations.
///
/// Durations (such as a rate limit's retry hint) are carried as whole
/// milliseconds.
#[derive(Debug)]
pub enum DataError {
    /// Network-related errors (connection failures, timeouts, etc.).
    Network(String),
    /// Rate limit exceeded by a provider.
    RateLimited {
        /// The provider that rate limited the request.
        provider: String,
        /// Suggested time to wait before retrying, in milliseconds.
        retry_after: Option<u64>,
    },
    /// The requested symbol was not found.
    SymbolNotFound(String),
    /// Data is not available for the requested symbol and date range.
    DataNotAvailable {
        /// The symbol that was requested.
        symbol: String,
        /// Start of the requested date range.
        start: String,
        /// End of the requested date range.
        end: String,
    },
    /// Error parsing data from a provider.
    Parse(String),
    /// Error interacting with the cache.
    Cache(String),
    /// The requested provider is not configured.
    ProviderNotConfigured(String),
    /// An invalid parameter was provided.
    InvalidParameter(String),
    /// Authentication failed for a provider.
    AuthenticationFailed(String),
    /// The requested feature is not supported.
    NotSupported(String),
    /// Any other error.
    Other(String),
}

} // verus!
