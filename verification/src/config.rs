//! Resolution of pool configuration from raw environment values.
//!
//! Each backend reads a connection URL and pool-size bounds from the
//! process environment. The raw values arrive here as `Option`s (the
//! reads themselves stay with the caller); this module turns them into
//! a validated [`DataSourceConfig`] or an exact [`ConfigError`].

use crate::parse::{is_u32_numeral, numeral_val, parse_u32};
use vstd::prelude::*;

verus! {

/// Default upper pool bound for the SQL backends.
pub const MAX_POOL_SIZE: u32 = 64;

/// Default lower pool bound for the SQL backends.
pub const MIN_POOL_SIZE: u32 = 8;

/// Default (single) pool bound for the Redis backend.
pub const REDIS_POOL_SIZE: u32 = 32;

/// Why a configuration could not be built.
#[derive(Clone, Copy, Debug, PartialEq, Eq, Structural)]
pub enum ConfigError {
    /// A required environment variable is absent.
    MissingConfiguration,
    /// A variable is present but its value is unusable: a non-numeric
    /// pool size, an empty URL, or bounds with `min` above `max` or
    /// below one.
    InvalidConfiguration,
    /// The backing pooling library failed to build the pool.
    PoolConstructionError,
}

impl ConfigError {
    /// A short description of the error.
    pub fn message(&self) -> (r: &'static str)
        ensures
            self is MissingConfiguration ==> r@ == "required configuration variable is not set"@,
            self is InvalidConfiguration ==> r@ == "configuration variable holds an invalid value"@,
            self is PoolConstructionError ==> r@ == "the pool could not be built"@,
    {
        match self {
            ConfigError::MissingConfiguration => "required configuration variable is not set",
            ConfigError::InvalidConfiguration => "configuration variable holds an invalid value",
            ConfigError::PoolConstructionError => "the pool could not be built",
        }
    }
}

/// The view of an optional raw environment value.
pub open spec fn opt_view(raw: Option<&str>) -> Option<Seq<char>> {
    match raw {
        None => None,
        Some(s) => Some(s@),
    }
}

/// What a pool-size variable resolves to: the default when the
/// variable is unset, its numeric value when it parses, and a hard
/// failure when it is set but not a `u32` numeral.
pub open spec fn spec_resolve_size(raw: Option<Seq<char>>, default: u32) -> Result<u32, ConfigError> {
    match raw {
        None => Ok(default),
        Some(s) => if is_u32_numeral(s) {
            Ok(numeral_val(s) as u32)
        } else {
            Err(ConfigError::InvalidConfiguration)
        },
    }
}

/// Law: a pool-size variable left unset resolves to its documented
/// default, for every default.
pub proof fn lemma_unset_size_resolves_to_default(default: u32)
    ensures
        spec_resolve_size(None, default) == Ok::<u32, ConfigError>(default),
{
}

/// Law: a pool-size variable that is set but not a numeral fails with
/// `InvalidConfiguration`; it never falls back to the default.
pub proof fn lemma_non_numeric_size_rejected(s: Seq<char>, default: u32)
    requires
        !is_u32_numeral(s),
    ensures
        spec_resolve_size(Some(s), default) == Err::<u32, ConfigError>(
            ConfigError::InvalidConfiguration,
        ),
{
}

/// Resolve one pool-size variable.
///
/// An unset variable yields the documented default; a set variable
/// must be numeric, and an explicitly set but non-numeric value fails
/// with `InvalidConfiguration` rather than silently falling back.
pub fn resolve_pool_size(raw: Option<&str>, default: u32) -> (r: Result<u32, ConfigError>)
    ensures
        r == spec_resolve_size(opt_view(raw), default),
{
    match raw {
        None => Ok(default),
        Some(s) => match parse_u32(s) {
            Some(v) => Ok(v),
            None => Err(ConfigError::InvalidConfiguration),
        },
    }
}

/// Resolve a required connection URL.
///
/// The URL has no default: an unset variable fails with
/// `MissingConfiguration`; a set one is passed through unchanged.
pub fn resolve_url(raw: Option<String>) -> (r: Result<String, ConfigError>)
    ensures
        match raw {
            None => r == Err::<String, ConfigError>(ConfigError::MissingConfiguration),
            Some(u) => r matches Ok(s) && s@ == u@,
        },
{
    match raw {
        None => Err(ConfigError::MissingConfiguration),
        Some(u) => Ok(u),
    }
}

/// A validated pool configuration for one backend: the connection URL
/// and the bounds the pool is to be built with.
///
/// For the Redis backend, which takes a single bound, that bound
/// stands in both fields.
pub struct DataSourceConfig {
    pub url: String,
    pub min_pool_size: u32,
    pub max_pool_size: u32,
}

impl DataSourceConfig {
    /// The configuration invariant: a non-empty URL and
    /// `max_pool_size >= min_pool_size >= 1`.
    pub open spec fn wf(&self) -> bool {
        &&& self.url@.len() > 0
        &&& 1 <= self.min_pool_size
        &&& self.min_pool_size <= self.max_pool_size
    }
}

/// The outcome of resolving a two-bound configuration, over the views
/// of the raw values: the resolved URL and `(min, max)` bounds, or the
/// exact error.
pub open spec fn spec_pool_config(
    url: Option<Seq<char>>,
    max_raw: Option<Seq<char>>,
    min_raw: Option<Seq<char>>,
) -> Result<(Seq<char>, u32, u32), ConfigError> {
    match url {
        None => Err(ConfigError::MissingConfiguration),
        Some(u) => match (spec_resolve_size(max_raw, MAX_POOL_SIZE), spec_resolve_size(
            min_raw,
            MIN_POOL_SIZE,
        )) {
            (Ok(mx), Ok(mn)) => if u.len() > 0 && 1 <= mn && mn <= mx {
                Ok((u, mn, mx))
            } else {
                Err(ConfigError::InvalidConfiguration)
            },
            _ => Err(ConfigError::InvalidConfiguration),
        },
    }
}

/// The view of an optional owned environment value.
pub open spec fn opt_string_view(raw: Option<String>) -> Option<Seq<char>> {
    match raw {
        None => None,
        Some(s) => Some(s@),
    }
}

/// Resolve the configuration of a two-bound backend (MySQL and
/// PostgreSQL use this shape) from the raw values of its URL and
/// pool-bound variables.
///
/// The URL is required and passed through unchanged; each bound
/// defaults when unset and must parse when set; the result satisfies
/// the configuration invariant or the construction fails fast.
pub fn pool_config(
    url: Option<String>,
    max_raw: Option<&str>,
    min_raw: Option<&str>,
) -> (r: Result<DataSourceConfig, ConfigError>)
    ensures
        match spec_pool_config(opt_string_view(url), opt_view(max_raw), opt_view(min_raw)) {
            Ok((u, mn, mx)) => r matches Ok(c) && c.url@ == u && c.min_pool_size == mn
                && c.max_pool_size == mx && c.wf(),
            Err(e) => r == Err::<DataSourceConfig, ConfigError>(e),
        },
{
    let url = match resolve_url(url) {
        Ok(u) => u,
        Err(e) => {
            return Err(e);
        },
    };
    let max_pool_size = match resolve_pool_size(max_raw, MAX_POOL_SIZE) {
        Ok(v) => v,
        Err(e) => {
            return Err(e);
        },
    };
    let min_pool_size = match resolve_pool_size(min_raw, MIN_POOL_SIZE) {
        Ok(v) => v,
        Err(e) => {
            return Err(e);
        },
    };
    if url.as_str().unicode_len() == 0 || min_pool_size < 1 || min_pool_size > max_pool_size {
        return Err(ConfigError::InvalidConfiguration);
    }
    Ok(DataSourceConfig { url, min_pool_size, max_pool_size })
}

/// The outcome of resolving a single-bound configuration (the Redis
/// shape), over the views of the raw values.
pub open spec fn spec_single_pool_config(
    url: Option<Seq<char>>,
    size_raw: Option<Seq<char>>,
) -> Result<(Seq<char>, u32), ConfigError> {
    match url {
        None => Err(ConfigError::MissingConfiguration),
        Some(u) => match spec_resolve_size(size_raw, REDIS_POOL_SIZE) {
            Ok(sz) => if u.len() > 0 && 1 <= sz {
                Ok((u, sz))
            } else {
                Err(ConfigError::InvalidConfiguration)
            },
            Err(e) => Err(e),
        },
    }
}

/// Resolve the configuration of a single-bound backend (Redis) from
/// the raw values of its URL and pool-size variables.
///
/// The single bound stands in both fields of the result, so the same
/// invariant carries over.
pub fn single_pool_config(url: Option<String>, size_raw: Option<&str>) -> (r: Result<
    DataSourceConfig,
    ConfigError,
>)
    ensures
        match spec_single_pool_config(opt_string_view(url), opt_view(size_raw)) {
            Ok((u, sz)) => r matches Ok(c) && c.url@ == u && c.min_pool_size == sz
                && c.max_pool_size == sz && c.wf(),
            Err(e) => r == Err::<DataSourceConfig, ConfigError>(e),
        },
{
    let url = match resolve_url(url) {
        Ok(u) => u,
        Err(e) => {
            return Err(e);
        },
    };
    let size = match resolve_pool_size(size_raw, REDIS_POOL_SIZE) {
        Ok(v) => v,
        Err(e) => {
            return Err(e);
        },
    };
    if url.as_str().unicode_len() == 0 || size < 1 {
        return Err(ConfigError::InvalidConfiguration);
    }
    Ok(DataSourceConfig { url, min_pool_size: size, max_pool_size: size })
}

} // verus!
