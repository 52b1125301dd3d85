//! Data sources: a resolved connection URL paired with a pool handle.
//!
//! The pools themselves are built and managed by the backing pooling
//! libraries (`sqlx` for the SQL backends, `r2d2` with the Redis
//! connection manager for Redis). Each backend's pool handle is held
//! in an opaque wrapper type; a data source stores the handle it was
//! constructed with and lends it out. The accessors never build a new
//! pool: they return the stored URL and handle unchanged.

use vstd::prelude::*;

verus! {

/// A handle to a `sqlx` MySQL connection pool. Cloning the handle
/// never builds a new pool: every copy references the pool the handle
/// was created from.
#[verifier::external_body]
pub struct MySqlPool {
    pub inner: sqlx::Pool<sqlx::MySql>,
}

impl MySqlPool {
    /// Relies on `sqlx::Pool::clone`: the impl clones the pool's inner
    /// `Arc`, so the result is a new handle referencing the same pool.
    #[verifier::external_body]
    pub fn handle(&self) -> (r: MySqlPool)
        ensures
            r == *self,
    {
        MySqlPool { inner: self.inner.clone() }
    }
}

/// A handle to a `sqlx` PostgreSQL connection pool. Cloning the handle
/// never builds a new pool.
#[verifier::external_body]
pub struct PgPool {
    pub inner: sqlx::Pool<sqlx::Postgres>,
}

impl PgPool {
    /// Relies on `sqlx::Pool::clone`: the impl clones the pool's inner
    /// `Arc`, so the result is a new handle referencing the same pool.
    #[verifier::external_body]
    pub fn handle(&self) -> (r: PgPool)
        ensures
            r == *self,
    {
        PgPool { inner: self.inner.clone() }
    }
}

/// A handle to an `r2d2` pool of Redis connections. Cloning the handle
/// never builds a new pool.
#[verifier::external_body]
pub struct RedisPool {
    pub inner: r2d2::Pool<r2d2_redis::RedisConnectionManager>,
}

impl RedisPool {
    /// Relies on `r2d2::Pool::clone`, documented as "Returns a new
    /// `Pool` referencing the same state as `self`": the impl clones
    /// the pool's inner `Arc`.
    #[verifier::external_body]
    pub fn handle(&self) -> (r: RedisPool)
        ensures
            r == *self,
    {
        RedisPool { inner: self.inner.clone() }
    }
}

/// The uniform accessor capability over the SQL-backed data sources.
///
/// `get_url` returns the URL the data source was constructed with;
/// `get_pool` returns a handle to the pool built at construction time,
/// never a new pool, and leaves the data source unchanged.
pub trait DataSource: Sized {
    /// The backend's pool handle type.
    type P;

    /// The URL the data source was constructed with.
    spec fn spec_url(&self) -> Seq<char>;

    /// The pool handle the data source owns.
    spec fn spec_pool(&self) -> Self::P;

    /// Returns the connection URL, unchanged.
    fn get_url(&self) -> (r: String)
        ensures
            r@ == self.spec_url(),
    ;

    /// Returns a handle to the pool built at construction time.
    /// Repeated calls are cheap handle copies of the same pool.
    fn get_pool(&mut self) -> (r: Self::P)
        ensures
            r == old(self).spec_pool(),
            *final(self) == *old(self),
    ;
}

/// The MySQL data source: its connection URL and the MySQL pool handle.
pub struct MySqlDataSource {
    pub url: String,
    pub pool: MySqlPool,
}

impl MySqlDataSource {
    /// Pair a resolved URL with the pool built for it.
    pub fn new(url: String, pool: MySqlPool) -> (r: MySqlDataSource)
        ensures
            r.url == url,
            r.pool == pool,
    {
        MySqlDataSource { url, pool }
    }
}

impl DataSource for MySqlDataSource {
    type P = MySqlPool;

    open spec fn spec_url(&self) -> Seq<char> {
        self.url@
    }

    open spec fn spec_pool(&self) -> MySqlPool {
        self.pool
    }

    fn get_url(&self) -> (r: String) {
        self.url.clone()
    }

    fn get_pool(&mut self) -> (r: MySqlPool) {
        self.pool.handle()
    }
}

/// The PostgreSQL data source: its connection URL and the PostgreSQL
/// pool handle.
pub struct PgDataSource {
    pub url: String,
    pub pool: PgPool,
}

impl PgDataSource {
    /// Pair a resolved URL with the pool built for it.
    pub fn new(url: String, pool: PgPool) -> (r: PgDataSource)
        ensures
            r.url == url,
            r.pool == pool,
    {
        PgDataSource { url, pool }
    }
}

impl DataSource for PgDataSource {
    type P = PgPool;

    open spec fn spec_url(&self) -> Seq<char> {
        self.url@
    }

    open spec fn spec_pool(&self) -> PgPool {
        self.pool
    }

    fn get_url(&self) -> (r: String) {
        self.url.clone()
    }

    fn get_pool(&mut self) -> (r: PgPool) {
        self.pool.handle()
    }
}

/// The Redis data source: its connection URL and the `r2d2` pool of
/// Redis connections.
pub struct RedisDataSource {
    pub url: String,
    pub pool: RedisPool,
}

impl RedisDataSource {
    /// Pair a resolved URL with the pool built for it.
    pub fn new(url: String, pool: RedisPool) -> (r: RedisDataSource)
        ensures
            r.url == url,
            r.pool == pool,
    {
        RedisDataSource { url, pool }
    }

    /// Returns the connection URL, unchanged.
    pub fn get_url(&self) -> (r: String)
        ensures
            r@ == self.url@,
    {
        self.url.clone()
    }

    /// Returns a handle to the pool built at construction time.
    /// Repeated calls are cheap handle copies of the same pool.
    pub fn get_pool(&self) -> (r: RedisPool)
        ensures
            r == self.pool,
    {
        self.pool.handle()
    }
}

/// Law: a MySQL data source constructed from a URL reports exactly
/// that URL. `new` stores the URL it is given, so the view `get_url`'s
/// contract returns is the input's, unchanged.
pub proof fn lemma_mysql_url_round_trip(ds: MySqlDataSource, url: String)
    requires
        ds.url == url,
    ensures
        ds.spec_url() == url@,
{
}

/// Law: a PostgreSQL data source constructed from a URL reports
/// exactly that URL.
pub proof fn lemma_pg_url_round_trip(ds: PgDataSource, url: String)
    requires
        ds.url == url,
    ensures
        ds.spec_url() == url@,
{
}

/// Law: a Redis data source constructed from a URL reports exactly
/// that URL: `get_url`'s contract returns the view of the stored URL,
/// which `new` takes unchanged from its caller.
pub proof fn lemma_redis_url_round_trip(ds: RedisDataSource, url: String)
    requires
        ds.url == url,
    ensures
        ds.url@ == url@,
{
}

/// Law: `get_pool` lends handles to one pool. If a first call on a
/// data source returns `r1` and leaves it as `ds1`, and a second call
/// on `ds1` returns `r2`, then — by the contract of `get_pool`, which
/// returns the stored handle and leaves the data source unchanged —
/// the two handles are equal: no second pool is ever constructed.
pub proof fn lemma_repeated_get_pool_same_handle<D: DataSource>(
    ds0: D,
    ds1: D,
    r1: D::P,
    r2: D::P,
)
    requires
        r1 == ds0.spec_pool(),
        ds1 == ds0,
        r2 == ds1.spec_pool(),
    ensures
        r1 == r2,
{
}

/// Law: the Redis accessor lends handles to one pool. Both calls
/// return the handle stored at construction, so any two handles
/// obtained from the same data source are equal.
pub proof fn lemma_redis_repeated_get_pool(ds: RedisDataSource, r1: RedisPool, r2: RedisPool)
    requires
        r1 == ds.pool,
        r2 == ds.pool,
    ensures
        r1 == r2,
{
}

} // verus!
