//! The calls that hand work to SQLite, each giving back a [`Receipt`] of
//! what it handed over and whether SQLite accepted it.
//!
//! A receipt can only be made here, by the call it records: the other
//! modules hold, pass on and return receipts, and their contracts state what
//! the receipts say, so what those contracts claim was sent to SQLite was
//! sent.
use vstd::prelude::*;
use rusqlite::Connection as SqliteConnection;

verus! {

/// What was handed to SQLite.
pub enum Request {
    /// Opening the database at a path with flags.
    Open(Seq<char>, i32),
    /// Setting the busy timeout to a number of milliseconds.
    BusyTimeout(u32),
    /// SQL, run or compiled.
    Sql(Seq<char>),
    /// Starting a transaction with the connection's transaction behaviour.
    Begin,
    /// One run of an insert with its three parameters.
    Insert(Seq<char>, Seq<char>, i64),
}

/// The record of one call to SQLite: what it was asked, and whether it
/// answered with success.
pub struct Receipt {
    request: Ghost<Request>,
    ok: Ghost<bool>,
}

impl Receipt {
    /// What the call handed to SQLite.
    pub closed spec fn request(&self) -> Request {
        self.request@
    }

    /// Whether SQLite answered with success.
    pub closed spec fn ok(&self) -> bool {
        self.ok@
    }
}

/// Opens the database `path` with `flags` (`SqliteConnection::open_with_flags`,
/// which also asks SQLite for extended result codes). Whether it opens
/// depends on the file system.
#[verifier::external_body]
pub(crate) fn open(path: &str, flags: i32) -> (r: (Result<SqliteConnection, rusqlite::Error>, Receipt))
    ensures
        r.1.request() == Request::Open(path@, flags),
        r.1.ok() == r.0 is Ok,
{
    let res = SqliteConnection::open_with_flags(path, rusqlite::OpenFlags::from_bits_truncate(flags));
    let rc = Receipt { request: Ghost(Request::Open(path@, flags)), ok: Ghost(res is Ok) };
    (res, rc)
}

/// Opens (or creates) the database `path` with rusqlite's default flags
/// (`rusqlite::Connection::open`); the flags are rusqlite's, so the receipt
/// records them as 0.
#[verifier::external_body]
pub(crate) fn open_default(path: &str) -> (r: (Result<SqliteConnection, rusqlite::Error>, Receipt))
    ensures
        r.1.request() == Request::Open(path@, 0),
        r.1.ok() == r.0 is Ok,
{
    let res = SqliteConnection::open(path);
    let rc = Receipt { request: Ghost(Request::Open(path@, 0)), ok: Ghost(res is Ok) };
    (res, rc)
}

/// Sets the busy timeout to `ms` milliseconds; `0` turns the busy handler
/// off (`SqliteConnection::busy_timeout`, which panics above `i32::MAX`
/// milliseconds).
#[verifier::external_body]
pub(crate) fn busy_timeout(conn: &SqliteConnection, ms: u32) -> (r: (Result<(), rusqlite::Error>, Receipt))
    requires
        ms <= i32::MAX,
    ensures
        r.1.request() == Request::BusyTimeout(ms),
        r.1.ok() == r.0 is Ok,
{
    let res = conn.busy_timeout(std::time::Duration::from_millis(ms as u64));
    let rc = Receipt { request: Ghost(Request::BusyTimeout(ms)), ok: Ghost(res is Ok) };
    (res, rc)
}

/// Runs the statements of `sql` in order (`SqliteConnection::execute_batch`);
/// the outcome depends on the database.
#[verifier::external_body]
pub(crate) fn execute_batch(conn: &SqliteConnection, sql: &str) -> (r: (Result<(), rusqlite::Error>, Receipt))
    ensures
        r.1.request() == Request::Sql(sql@),
        r.1.ok() == r.0 is Ok,
{
    let res = conn.execute_batch(sql);
    let rc = Receipt { request: Ghost(Request::Sql(sql@)), ok: Ghost(res is Ok) };
    (res, rc)
}

/// Compiles `sql` (`SqliteConnection::prepare`); the outcome depends on the
/// database.
#[verifier::external_body]
pub(crate) fn prepare<'c>(conn: &'c SqliteConnection, sql: &str) -> (r: (Result<rusqlite::Statement<'c>, rusqlite::Error>, Receipt))
    ensures
        r.1.request() == Request::Sql(sql@),
        r.1.ok() == r.0 is Ok,
{
    let res = conn.prepare(sql);
    let rc = Receipt { request: Ghost(Request::Sql(sql@)), ok: Ghost(res is Ok) };
    (res, rc)
}

/// Starts a transaction without checking for one already open
/// (`rusqlite::Connection::unchecked_transaction`, which runs `BEGIN` with
/// the connection's transaction behaviour); dropping it uncommitted rolls it
/// back.
#[verifier::external_body]
pub(crate) fn transaction(conn: &SqliteConnection) -> (r: (Result<rusqlite::Transaction<'_>, rusqlite::Error>, Receipt))
    ensures
        r.1.request() == Request::Begin,
        r.1.ok() == r.0 is Ok,
{
    let res = conn.unchecked_transaction();
    let rc = Receipt { request: Ghost(Request::Begin), ok: Ghost(res is Ok) };
    (res, rc)
}

/// Commits the transaction (`rusqlite::Transaction::commit`, which runs
/// `COMMIT` on its connection).
#[verifier::external_body]
pub(crate) fn commit(tx: rusqlite::Transaction<'_>) -> (r: (Result<(), rusqlite::Error>, Receipt))
    ensures
        r.1.request() == Request::Sql("COMMIT"@),
        r.1.ok() == r.0 is Ok,
{
    let res = tx.commit();
    let rc = Receipt { request: Ghost(Request::Sql("COMMIT"@)), ok: Ghost(res is Ok) };
    (res, rc)
}

/// Compiles `sql` through the connection's statement cache
/// (`rusqlite::Connection::prepare_cached`, reached through the transaction).
#[verifier::external_body]
pub(crate) fn prepare_cached<'a>(tx: &'a rusqlite::Transaction<'_>, sql: &str) -> (r: (Result<rusqlite::CachedStatement<'a>, rusqlite::Error>, Receipt))
    ensures
        r.1.request() == Request::Sql(sql@),
        r.1.ok() == r.0 is Ok,
{
    let res = tx.prepare_cached(sql);
    let rc = Receipt { request: Ghost(Request::Sql(sql@)), ok: Ghost(res is Ok) };
    (res, rc)
}

/// Runs the insert with the three values as parameters 1 to 3
/// (`rusqlite::Statement::execute`).
#[verifier::external_body]
pub(crate) fn insert_message(stmt: &mut rusqlite::CachedStatement<'_>, topic: &str, payload: &str, received_ms: i64) -> (r: (Result<usize, rusqlite::Error>, Receipt))
    ensures
        r.1.request() == Request::Insert(topic@, payload@, received_ms),
        r.1.ok() == r.0 is Ok,
{
    let res = stmt.execute((topic, payload, received_ms));
    let rc = Receipt { request: Ghost(Request::Insert(topic@, payload@, received_ms)), ok: Ghost(res is Ok) };
    (res, rc)
}

} // verus!
