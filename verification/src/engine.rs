//! The SQLite runtime: connections,
//! transactions, savepoints and WAL checkpoints, each reporting its failure
//! in an [`ErrorSlot`] as the runtime's C interface does.
use vstd::prelude::*;
use rusqlite::Connection as SqliteConnection;
use crate::error::ErrorSlot;
use crate::runtime::{
    checkpoint_mode_keyword, checkpoint_mode_name, memory_flags_spec, memory_path, memory_path_spec,
    name_arg_view, named_command, named_command_spec, open_flags, open_flags_spec, quote_identifier,
    quote_identifier_spec, NameArg, SNR_OPEN_CREATE, SNR_OPEN_FULLMUTEX, SNR_OPEN_READWRITE, SNR_OPEN_URI,
};
use crate::sqlite::{self, Receipt, Request};
use crate::text::{chars_of, push_str, string_from_chars};

verus! {

#[verifier::external_type_specification]
#[verifier::external_body]
pub struct ExConnection(SqliteConnection);

#[verifier::external_type_specification]
#[verifier::external_body]
pub struct ExSqliteError(rusqlite::Error);

#[verifier::external_type_specification]
#[verifier::external_body]
pub struct ExStatement<'conn>(rusqlite::Statement<'conn>);

#[verifier::external_type_specification]
#[verifier::external_body]
pub struct ExRows<'stmt>(rusqlite::Rows<'stmt>);

#[verifier::external_type_specification]
#[verifier::external_body]
pub struct ExRow<'stmt>(rusqlite::Row<'stmt>);

/// Starts reading the rows of a prepared statement (`rusqlite::Statement::raw_query`).
#[verifier::external_body]
pub(crate) fn sqlite_query<'a, 'c>(stmt: &'a mut rusqlite::Statement<'c>) -> rusqlite::Rows<'a> {
    stmt.raw_query()
}

/// Steps to the next row (`rusqlite::Rows::next`): `Some` while there is one.
#[verifier::external_body]
pub(crate) fn sqlite_next_row<'a, 'b>(rows: &'a mut rusqlite::Rows<'b>) -> Result<Option<&'a rusqlite::Row<'b>>, rusqlite::Error> {
    rows.next()
}

/// Reads column `idx` of a row as an integer (`rusqlite::Row::get::<_, i64>`).
#[verifier::external_body]
fn sqlite_row_i64(row: &rusqlite::Row, idx: usize) -> Result<i64, rusqlite::Error> {
    row.get::<usize, i64>(idx)
}

/// The text SQLite gives for an error (`rusqlite::Error`'s `Display`).
#[verifier::external_body]
pub(crate) fn sqlite_error_message(e: &rusqlite::Error) -> String {
    e.to_string()
}

/// The rowid of the last successful insert (`SqliteConnection::last_insert_rowid`).
#[verifier::external_body]
fn sqlite_last_insert_rowid(conn: &SqliteConnection) -> i64 {
    conn.last_insert_rowid()
}

/// The rows changed by the last statement (`SqliteConnection::changes`).
#[verifier::external_body]
fn sqlite_changes(conn: &SqliteConnection) -> u64 {
    conn.changes()
}

/// The version of the linked SQLite library (`rusqlite::version`, which
/// reads `sqlite3_libversion`): the SQLite built from libsqlite3-sys's
/// bundled sources, `SQLITE_VERSION` "3.46.0".
#[verifier::external_body]
fn sqlite_library_version() -> (v: &'static str)
    ensures
        v@ == "3.46.0"@,
{
    rusqlite::version()
}

/// An open database connection.
pub struct Handle {
    conn: SqliteConnection,
    opened: Receipt,
}

/// Whether `m` begins with `p`.
pub open spec fn starts_with(m: Seq<char>, p: Seq<char>) -> bool {
    m.len() >= p.len() && m.take(p.len() as int) == p
}

/// Whether `e` records a message that begins with `p`.
pub open spec fn failed_with_prefix(e: Option<Seq<char>>, p: Seq<char>) -> bool {
    match e {
        Some(m) => starts_with(m, p),
        None => false,
    }
}

/// The beginning of every message that `caller` records: its name and a
/// colon (as the slot keeps it, cut at a NUL).
pub open spec fn error_prefix(caller: Seq<char>) -> Seq<char> {
    crate::error::truncate_at_nul(caller + ": "@)
}

/// `caller` and `tail` joined as the runtime's error messages are.
pub open spec fn caller_message(caller: Seq<char>, tail: Seq<char>) -> Seq<char> {
    caller + ": "@ + tail
}

/// Records `caller: msg` in `err`.
pub(crate) fn fail_with(err: &mut ErrorSlot, caller: &str, msg: &str)
    ensures
        final(err)@ == Some(crate::error::truncate_at_nul(caller_message(caller@, msg@))),
        failed_with_prefix(final(err)@, error_prefix(caller@)),
{
    let mut m = String::new();
    push_str(&mut m, caller);
    push_str(&mut m, ": ");
    push_str(&mut m, msg);
    proof {
        lemma_truncate_prefix(caller@ + ": "@, msg@);
    }
    err.set(m.as_str());
}

/// Records `caller: ` followed by SQLite's text for `e` in `err`.
pub(crate) fn fail_sqlite(err: &mut ErrorSlot, caller: &str, e: &rusqlite::Error)
    ensures
        failed_with_prefix(final(err)@, error_prefix(caller@)),
{
    let text = sqlite_error_message(e);
    let mut m = String::new();
    push_str(&mut m, caller);
    push_str(&mut m, ": ");
    let ghost head = m@;
    push_str(&mut m, text.as_str());
    proof {
        lemma_truncate_prefix(head, text@);
    }
    err.set(m.as_str());
}

/// Cutting at the first NUL keeps the cut of every prefix as a prefix.
pub proof fn lemma_truncate_prefix(a: Seq<char>, b: Seq<char>)
    ensures
        starts_with(crate::error::truncate_at_nul(a + b), crate::error::truncate_at_nul(a)),
    decreases a.len(),
{
    let t = crate::error::truncate_at_nul(a + b);
    let ta = crate::error::truncate_at_nul(a);
    if a.len() == 0 {
        assert(ta =~= Seq::<char>::empty());
        assert(a + b =~= b);
        assert(t.take(0) =~= ta);
    } else {
        assert((a + b)[0] == a[0]);
        assert((a + b).drop_first() =~= a.drop_first() + b);
        lemma_truncate_prefix(a.drop_first(), b);
        if a[0] != '\u{0}' {
            let r = crate::error::truncate_at_nul(a.drop_first() + b);
            let ra = crate::error::truncate_at_nul(a.drop_first());
            assert(t == seq![a[0]] + r);
            assert(ta == seq![a[0]] + ra);
            assert(t.take(ta.len() as int) =~= seq![a[0]] + r.take(ra.len() as int));
            assert(t.take(ta.len() as int) =~= ta);
        } else {
            assert(ta =~= Seq::<char>::empty());
            assert(t =~= Seq::<char>::empty());
            assert(t.take(0) =~= ta);
        }
    }
}

/// `m` without a trailing `": " + path`, the suffix rusqlite adds to
/// SQLite's message when a file cannot be opened.
pub open spec fn without_path_suffix(m: Seq<char>, path: Seq<char>) -> Seq<char> {
    let suffix = ": "@ + path;
    if m.len() >= suffix.len() && m.subrange(m.len() - suffix.len(), m.len() as int) == suffix {
        m.subrange(0, m.len() - suffix.len())
    } else {
        m
    }
}

/// `m` without a trailing `": " + path` (see [`without_path_suffix`]).
pub fn strip_path_suffix(m: &str, path: &str) -> (r: String)
    ensures
        r@ == without_path_suffix(m@, path@),
{
    let mut suffix = String::new();
    push_str(&mut suffix, ": ");
    push_str(&mut suffix, path);
    let mv = chars_of(m);
    let sv = chars_of(suffix.as_str());
    if mv.len() < sv.len() {
        return string_from_chars(mv.as_slice());
    }
    let start = mv.len() - sv.len();
    let mut k: usize = start;
    while k < mv.len()
        invariant
            mv@ == m@,
            sv@ == ": "@ + path@,
            sv@.len() <= mv@.len(),
            start == mv@.len() - sv@.len(),
            start <= k <= mv@.len(),
            forall|t: int| start <= t < k ==> mv@[t] == sv@[t - start],
        decreases mv@.len() - k,
    {
        if mv[k] != sv[k - start] {
            assert(mv@.subrange(start as int, mv@.len() as int)[k - start] != sv@[k - start]);
            return string_from_chars(mv.as_slice());
        }
        k = k + 1;
    }
    assert(mv@.subrange(start as int, mv@.len() as int) =~= sv@);
    let mut head: Vec<char> = Vec::new();
    let mut j: usize = 0;
    while j < start
        invariant
            mv@ == m@,
            start <= mv@.len(),
            j <= start,
            head@ == mv@.subrange(0, j as int),
        decreases start - j,
    {
        head.push(mv[j]);
        j = j + 1;
        assert(head@ =~= mv@.subrange(0, j as int));
    }
    string_from_chars(head.as_slice())
}

impl Handle {
    /// A handle holds the receipt of the open that made it.
    #[verifier::type_invariant]
    spec fn opened_by_open(&self) -> bool {
        self.opened.request() is Open && self.opened.ok()
    }

    /// Closes the connection, giving back the receipt of the open that made it.
    pub fn into_receipt(self) -> (rc: Receipt)
        ensures
            open_request(Some(rc)) == Some(self.opened_with()),
            rc.ok(),
    {
        proof {
            use_type_invariant(&self);
        }
        self.opened
    }

    /// The SQLite connection the handle owns.
    pub closed spec fn sqlite_connection(&self) -> SqliteConnection {
        self.conn
    }

    /// The path and the flags the connection was opened with.
    pub closed spec fn opened_with(&self) -> (Seq<char>, i32) {
        match self.opened.request() {
            Request::Open(p, f) => (p, f),
            _ => (Seq::empty(), 0),
        }
    }

    /// The underlying connection.
    pub fn connection(&self) -> (c: &SqliteConnection)
        ensures
            *c == self.sqlite_connection(),
    {
        &self.conn
    }

    /// Opens `path` with `flags` and turns the busy handler off, recording
    /// `caller: …` in `err` on failure. The path and flags handed to
    /// rusqlite's open are recorded by the handle, or by the returned receipt
    /// where the open failed.
    pub(crate) fn open_checked(path: &str, flags: i32, caller: &str, err: &mut ErrorSlot) -> (r: (Option<Handle>, Sent))
        ensures
            open_sent(r.0, r.1) == Some((path@, flags)),
            r.0 is Some ==> r.1 is None,
            r.0 is Some ==> final(err)@ == old(err)@,
            r.0 is None ==> failed_with_prefix(final(err)@, error_prefix(caller@)),
            r.0 matches Some(hd) ==> hd.opened_with() == (path@, flags),
    {
        let (opened, rc) = sqlite::open(path, flags);
        match opened {
            Ok(conn) => match sqlite::busy_timeout(&conn, 0).0 {
                Ok(()) => (Some(Handle { conn, opened: rc }), None),
                Err(e) => {
                    fail_sqlite(err, caller, &e);
                    (None, Some(rc))
                },
            },
            Err(e) => {
                let text = sqlite_error_message(&e);
                let m = strip_path_suffix(text.as_str(), path);
                fail_with(err, caller, m.as_str());
                (None, Some(rc))
            },
        }
    }
}


/// The path and flags an open handed to SQLite, as its receipt records them.
pub open spec fn open_request(s: Sent) -> Option<(Seq<char>, i32)> {
    match s {
        Some(rc) => match rc.request() {
            Request::Open(p, f) => Some((p, f)),
            _ => None,
        },
        None => None,
    }
}

/// The path and flags an open handed to SQLite: those of the handle where
/// it opened, else those its receipt records.
pub open spec fn open_sent(h: Option<Handle>, s: Sent) -> Option<(Seq<char>, i32)> {
    match h {
        Some(hd) => Some(hd.opened_with()),
        None => open_request(s),
    }
}

/// The SQL that `receipts` record, in order.
pub open spec fn receipts_sql(receipts: Seq<Receipt>) -> Seq<Seq<char>> {
    receipts.map_values(|rc: Receipt| receipt_sql(rc))
}

/// The SQL a receipt records (empty for a call that handed no SQL).
pub open spec fn receipt_sql(rc: Receipt) -> Seq<char> {
    match rc.request() {
        Request::Sql(q) => q,
        _ => Seq::empty(),
    }
}

/// Opens (or creates) the database file `path`; see [`open_flags_spec`]
/// for the flags it is opened with. A missing `path` (null, or not
/// UTF-8) is refused. Failures record `snr_open: …` in `err`. The path and
/// flags handed to rusqlite's open (which adds SQLite's extended result codes
/// to them) are recorded whatever SQLite answered: by the handle where it
/// opened, by the returned receipt where it did not.
pub fn snr_open(path: Option<&str>, flags: i32, err: &mut ErrorSlot) -> (r: (Option<Handle>, Sent))
    ensures
        path is None ==> r.0 is None && r.1 is None && final(err)@ == Some(
            crate::error::truncate_at_nul("snr_open: path es nulo o no es UTF-8 válido"@),
        ),
        path matches Some(p) ==> open_sent(r.0, r.1) == Some((p@, open_flags_spec(flags))),
        path is Some && r.0 is Some ==> final(err)@ is None,
        path is Some && r.0 is None ==> failed_with_prefix(final(err)@, error_prefix("snr_open"@)),
{
    err.clear();
    let p = match path {
        Some(p) => p,
        None => {
            err.set("snr_open: path es nulo o no es UTF-8 válido");
            return (None, None);
        },
    };
    let f = open_flags(flags);
    Handle::open_checked(p, f, "snr_open", err)
}

/// Opens an in-memory database: a private one for an absent name, or the
/// shared one called `name` (only `[A-Za-z0-9_-]` allowed). A refused name
/// records its message; a failed open records `snr_open_memory: …`. A
/// successful open leaves `err` as it was. The path and flags handed to
/// rusqlite's open are recorded as for [`snr_open`].
pub fn snr_open_memory(name: NameArg, err: &mut ErrorSlot) -> (r: (Option<Handle>, Sent))
    ensures
        memory_path_spec(name_arg_view(name)) matches Err(m) ==> r.0 is None && r.1 is None && final(err)@
            == Some(crate::error::truncate_at_nul(m)),
        memory_path_spec(name_arg_view(name)) matches Ok(p) ==> open_sent(r.0, r.1) == Some((p, memory_flags_spec())),
        memory_path_spec(name_arg_view(name)) is Ok && r.0 is Some ==> final(err)@ == old(err)@,
        memory_path_spec(name_arg_view(name)) is Ok && r.0 is None ==> failed_with_prefix(
            final(err)@,
            error_prefix("snr_open_memory"@),
        ),
{
    match memory_path(name) {
        Ok(path) => {
            let flags = SNR_OPEN_READWRITE | SNR_OPEN_CREATE | SNR_OPEN_FULLMUTEX | SNR_OPEN_URI;
            let mut scratch = ErrorSlot::new();
            let (opened, sent) = Handle::open_checked(path.as_str(), flags, "snr_open_memory", &mut scratch);
            match opened {
                Some(h) => (Some(h), sent),
                None => {
                    *err = scratch;
                    (None, sent)
                },
            }
        },
        Err(m) => {
            err.set(m.as_str());
            (None, None)
        },
    }
}

/// Closes a connection; closing none does nothing.
pub fn snr_close(handle: Option<Handle>) {
    match handle {
        Some(_) => {},
        None => {},
    }
}

/// The version of the linked SQLite library.
pub fn snr_sqlite_version() -> (r: String)
    ensures
        r@ == "3.46.0"@,
{
    let v = sqlite_library_version();
    string_from_chars(chars_of(v).as_slice())
}

/// Checks that the connection answers `SELECT 1` with a row: 1 when it
/// does, 0 otherwise (no connection, or the query failed). The receipt records the
/// SQL handed to SQLite.
pub fn snr_ping(handle: Option<&Handle>, err: &mut ErrorSlot) -> (r: (i64, Sent))
    ensures
        r.0 == 0 || r.0 == 1,
        r.0 == 1 ==> sent_ok(r.1),
        handle is None ==> r.0 == 0 && r.1 is None && final(err)@ == Some(
            crate::error::truncate_at_nul("snr_ping: handle nulo"@),
        ),
        handle is Some ==> sent_sql(r.1) == Some("SELECT 1"@),
        handle is Some && r.0 == 1 ==> final(err)@ is None,
{
    err.clear();
    let h = match handle {
        Some(h) => h,
        None => {
            err.set("snr_ping: handle nulo");
            return (0, None);
        },
    };
    let (prepared, ran) = sqlite::prepare(&h.conn, "SELECT 1");
    let sent: Sent = Some(ran);
    let mut stmt = match prepared {
        Ok(s) => s,
        Err(_) => {
            err.set("snr_ping: prepare falló");
            return (0, sent);
        },
    };
    let mut rows = sqlite_query(&mut stmt);
    match sqlite_next_row(&mut rows) {
        Ok(Some(_)) => (1, sent),
        _ => (0, sent),
    }
}

/// Runs one or more SQL statements that return no result: 0 on success
/// (with `err` cleared), -1 on failure with SQLite's message in `err`. The
/// receipt records the SQL handed to SQLite.
pub fn snr_exec(handle: Option<&Handle>, sql: Option<&str>, err: &mut ErrorSlot) -> (r: (i32, Sent))
    ensures
        handle is None ==> r.0 == -1 && final(err)@ == Some(
            crate::error::truncate_at_nul("snr_exec: handle nulo"@),
        ),
        handle is Some && sql is None ==> r.0 == -1 && final(err)@ == Some(
            crate::error::truncate_at_nul("snr_exec: sql es nulo"@),
        ),
        sent_sql(r.1) == (if handle is Some { opt_view(sql) } else { None }),
        r.0 == 0 || r.0 == -1,
        r.0 == 0 <==> final(err)@ is None,
        r.0 == 0 <==> sent_ok(r.1),
{
    err.clear();
    let h = match handle {
        Some(h) => h,
        None => {
            err.set("snr_exec: handle nulo");
            return (-1, None);
        },
    };
    let q = match sql {
        Some(q) => q,
        None => {
            err.set("snr_exec: sql es nulo");
            return (-1, None);
        },
    };
    let (done, ran) = sqlite::execute_batch(&h.conn, q);
    let sent: Sent = Some(ran);
    match done {
        Ok(()) => (0, sent),
        Err(e) => {
            let m = sqlite_error_message(&e);
            err.set(m.as_str());
            (-1, sent)
        },
    }
}

/// The rowid of the last successful insert; 0 without a connection.
pub fn snr_last_insert_rowid(handle: Option<&Handle>) -> (r: i64)
    ensures
        handle is None ==> r == 0,
{
    match handle {
        Some(h) => sqlite_last_insert_rowid(&h.conn),
        None => 0,
    }
}

/// The rows changed by the last statement; 0 without a connection.
pub fn snr_changes(handle: Option<&Handle>) -> (r: i64)
    ensures
        handle is None ==> r == 0,
        r >= 0,
{
    match handle {
        Some(h) => {
            let c = sqlite_changes(&h.conn);
            if c > i64::MAX as u64 {
                i64::MAX
            } else {
                c as i64
            }
        },
        None => 0,
    }
}

/// The wait (ms) handed to SQLite for a requested busy timeout: none below 1.
pub open spec fn busy_wait_spec(ms: i32) -> u32 {
    if ms <= 0 {
        0
    } else {
        ms as u32
    }
}

/// Sets how long (ms) a writer waits for a lock before giving up; 0 or less
/// turns waiting off. 0 on success, -1 on failure. The receipt records the wait
/// handed to SQLite.
pub fn snr_set_busy_timeout(handle: Option<&Handle>, ms: i32, err: &mut ErrorSlot) -> (r: (i32, Sent))
    ensures
        handle is None ==> r.0 == -1 && r.1 is None && final(err)@ == Some(
            crate::error::truncate_at_nul("snr_set_busy_timeout: handle nulo"@),
        ),
        handle is Some ==> final(err)@ is None && (r.1 matches Some(rc) && rc.request() == Request::BusyTimeout(
            busy_wait_spec(ms),
        )),
        r.0 == 0 <==> sent_ok(r.1),
        r.0 == 0 || r.0 == -1,
{
    err.clear();
    let h = match handle {
        Some(h) => h,
        None => {
            err.set("snr_set_busy_timeout: handle nulo");
            return (-1, None);
        },
    };
    let wait: u32 = if ms <= 0 { 0 } else { ms as u32 };
    let (done, passed) = sqlite::busy_timeout(&h.conn, wait);
    let sent: Sent = Some(passed);
    match done {
        Ok(()) => (0, sent),
        Err(_) => (-1, sent),
    }
}

/// What a call handed to SQLite: the receipt of the call to SQLite, or
/// `None` where it was refused before reaching SQLite.
pub type Sent = Option<Receipt>;

/// The SQL a call handed to SQLite, if it handed SQL.
pub open spec fn sent_sql(s: Sent) -> Option<Seq<char>> {
    match s {
        Some(rc) => match rc.request() {
            Request::Sql(q) => Some(q),
            _ => None,
        },
        None => None,
    }
}

/// Whether a call reached SQLite and SQLite answered with success.
pub open spec fn sent_ok(s: Sent) -> bool {
    s matches Some(rc) && rc.ok()
}

/// Runs the fixed statement `sql` for `caller`: 0 on success (with `err`
/// cleared), -1 on failure with `caller: …` in `err`. The receipt records the SQL
/// handed to SQLite.
pub fn exec_simple(handle: Option<&Handle>, sql: &str, caller: &str, err: &mut ErrorSlot) -> (r: (i32, Sent))
    ensures
        handle is None ==> r.0 == -1 && r.1 is None && final(err)@ == Some(
            crate::error::truncate_at_nul(caller_message(caller@, "handle nulo"@)),
        ),
        handle is Some ==> sent_sql(r.1) == Some(sql@),
        r.0 == 0 || r.0 == -1,
        r.0 == 0 <==> final(err)@ is None,
        r.0 == 0 <==> sent_ok(r.1),
        handle is Some && r.0 == -1 ==> failed_with_prefix(final(err)@, error_prefix(caller@)),
{
    err.clear();
    let h = match handle {
        Some(h) => h,
        None => {
            fail_with(err, caller, "handle nulo");
            return (-1, None);
        },
    };
    let (done, ran) = sqlite::execute_batch(&h.conn, sql);
    let sent: Sent = Some(ran);
    match done {
        Ok(()) => (0, sent),
        Err(e) => {
            fail_sqlite(err, caller, &e);
            (-1, sent)
        },
    }
}

/// The SQL that `exec_with_name` hands to SQLite: `command "name"` with the
/// name quoted, once both a name and a connection are there.
pub open spec fn named_sent(handle_present: bool, name: Option<Seq<char>>, command: Seq<char>) -> Option<Seq<char>> {
    match name {
        Some(n) => if handle_present {
            Some(named_command_spec(command, n))
        } else {
            None
        },
        None => None,
    }
}

/// The view of an optional text argument.
pub open spec fn opt_view(s: Option<&str>) -> Option<Seq<char>> {
    match s {
        Some(t) => Some(t@),
        None => None,
    }
}

/// Runs `command "name"` for `caller`, with `name` quoted so that it cannot
/// end the identifier; a missing name is refused before anything else.
pub fn exec_with_name(
    handle: Option<&Handle>,
    name: Option<&str>,
    command: &str,
    caller: &str,
    err: &mut ErrorSlot,
) -> (r: (i32, Sent))
    ensures
        name is None ==> r.0 == -1 && final(err)@ == Some(
            crate::error::truncate_at_nul(caller_message(caller@, "name nulo o no es UTF-8"@)),
        ),
        name is Some && handle is None ==> r.0 == -1 && final(err)@ == Some(
            crate::error::truncate_at_nul(caller_message(caller@, "handle nulo"@)),
        ),
        sent_sql(r.1) == named_sent(handle is Some, opt_view(name), command@),
        r.0 == 0 || r.0 == -1,
        r.0 == 0 <==> final(err)@ is None,
        r.0 == 0 <==> sent_ok(r.1),
        r.0 == -1 ==> final(err)@ is Some,
{
    err.clear();
    let n = match name {
        Some(n) => n,
        None => {
            fail_with(err, caller, "name nulo o no es UTF-8");
            return (-1, None);
        },
    };
    let sql = named_command(command, n);
    exec_simple(handle, sql.as_str(), caller, err)
}

/// The SQL a fixed transaction statement hands to SQLite: `sql` where there
/// is a connection.
pub open spec fn fixed_sent(handle_present: bool, sql: Seq<char>) -> Option<Seq<char>> {
    if handle_present {
        Some(sql)
    } else {
        None
    }
}

/// Starts a deferred transaction: 0 on success, -1 on failure.
pub fn snr_begin(handle: Option<&Handle>, err: &mut ErrorSlot) -> (r: (i32, Sent))
    ensures
        handle is None ==> r.0 == -1,
        sent_sql(r.1) == fixed_sent(handle is Some, "BEGIN"@),
        r.0 == 0 || r.0 == -1,
        r.0 == 0 <==> final(err)@ is None,
        r.0 == 0 <==> sent_ok(r.1),
{
    exec_simple(handle, "BEGIN", "snr_begin", err)
}

/// Starts a transaction that takes the write lock at once.
pub fn snr_begin_immediate(handle: Option<&Handle>, err: &mut ErrorSlot) -> (r: (i32, Sent))
    ensures
        handle is None ==> r.0 == -1,
        sent_sql(r.1) == fixed_sent(handle is Some, "BEGIN IMMEDIATE"@),
        r.0 == 0 || r.0 == -1,
        r.0 == 0 <==> final(err)@ is None,
        r.0 == 0 <==> sent_ok(r.1),
{
    exec_simple(handle, "BEGIN IMMEDIATE", "snr_begin_immediate", err)
}

/// Starts a transaction that locks the whole database.
pub fn snr_begin_exclusive(handle: Option<&Handle>, err: &mut ErrorSlot) -> (r: (i32, Sent))
    ensures
        handle is None ==> r.0 == -1,
        sent_sql(r.1) == fixed_sent(handle is Some, "BEGIN EXCLUSIVE"@),
        r.0 == 0 || r.0 == -1,
        r.0 == 0 <==> final(err)@ is None,
        r.0 == 0 <==> sent_ok(r.1),
{
    exec_simple(handle, "BEGIN EXCLUSIVE", "snr_begin_exclusive", err)
}

/// Commits the open transaction.
pub fn snr_commit(handle: Option<&Handle>, err: &mut ErrorSlot) -> (r: (i32, Sent))
    ensures
        handle is None ==> r.0 == -1,
        sent_sql(r.1) == fixed_sent(handle is Some, "COMMIT"@),
        r.0 == 0 || r.0 == -1,
        r.0 == 0 <==> final(err)@ is None,
        r.0 == 0 <==> sent_ok(r.1),
{
    exec_simple(handle, "COMMIT", "snr_commit", err)
}

/// Rolls the open transaction back.
pub fn snr_rollback(handle: Option<&Handle>, err: &mut ErrorSlot) -> (r: (i32, Sent))
    ensures
        handle is None ==> r.0 == -1,
        sent_sql(r.1) == fixed_sent(handle is Some, "ROLLBACK"@),
        r.0 == 0 || r.0 == -1,
        r.0 == 0 <==> final(err)@ is None,
        r.0 == 0 <==> sent_ok(r.1),
{
    exec_simple(handle, "ROLLBACK", "snr_rollback", err)
}

/// Creates the savepoint `name`.
pub fn snr_savepoint(handle: Option<&Handle>, name: Option<&str>, err: &mut ErrorSlot) -> (r: (i32, Sent))
    ensures
        name is None || handle is None ==> r.0 == -1,
        sent_sql(r.1) == named_sent(handle is Some, opt_view(name), "SAVEPOINT"@),
        r.0 == 0 || r.0 == -1,
        r.0 == 0 <==> final(err)@ is None,
        r.0 == 0 <==> sent_ok(r.1),
{
    exec_with_name(handle, name, "SAVEPOINT", "snr_savepoint", err)
}

/// Releases (keeps the work of) the savepoint `name`.
pub fn snr_release(handle: Option<&Handle>, name: Option<&str>, err: &mut ErrorSlot) -> (r: (i32, Sent))
    ensures
        name is None || handle is None ==> r.0 == -1,
        sent_sql(r.1) == named_sent(handle is Some, opt_view(name), "RELEASE"@),
        r.0 == 0 || r.0 == -1,
        r.0 == 0 <==> final(err)@ is None,
        r.0 == 0 <==> sent_ok(r.1),
{
    exec_with_name(handle, name, "RELEASE", "snr_release", err)
}

/// Rolls back to the savepoint `name`, which stays open.
pub fn snr_rollback_to(handle: Option<&Handle>, name: Option<&str>, err: &mut ErrorSlot) -> (r: (i32, Sent))
    ensures
        name is None || handle is None ==> r.0 == -1,
        sent_sql(r.1) == named_sent(handle is Some, opt_view(name), "ROLLBACK TO"@),
        r.0 == 0 || r.0 == -1,
        r.0 == 0 <==> final(err)@ is None,
        r.0 == 0 <==> sent_ok(r.1),
{
    exec_with_name(handle, name, "ROLLBACK TO", "snr_rollback_to", err)
}

/// The statement that checkpoints the WAL of `db_name` (the main database
/// where it is absent or empty) in the mode called `mode`.
pub open spec fn checkpoint_sql_spec(db_name: Option<Seq<char>>, mode: Seq<char>) -> Seq<char> {
    match db_name {
        Some(n) => if n.len() > 0 {
            "PRAGMA "@ + quote_identifier_spec(n) + ".wal_checkpoint("@ + mode + ")"@
        } else {
            "PRAGMA main.wal_checkpoint("@ + mode + ")"@
        },
        None => "PRAGMA main.wal_checkpoint("@ + mode + ")"@,
    }
}

/// The statement that checkpoints the WAL of `db_name` in the mode `mode`.
pub fn checkpoint_sql(db_name: Option<&str>, mode: &str) -> (sql: String)
    ensures
        sql@ == checkpoint_sql_spec(
            match db_name {
                Some(n) => Some(n@),
                None => None,
            },
            mode@,
        ),
{
    let mut sql = String::new();
    match db_name {
        Some(n) => {
            if n.is_empty() {
                push_str(&mut sql, "PRAGMA main.wal_checkpoint(");
            } else {
                push_str(&mut sql, "PRAGMA ");
                let q = quote_identifier(n);
                push_str(&mut sql, q.as_str());
                push_str(&mut sql, ".wal_checkpoint(");
            }
        },
        None => push_str(&mut sql, "PRAGMA main.wal_checkpoint("),
    }
    push_str(&mut sql, mode);
    push_str(&mut sql, ")");
    sql
}

/// Reads the three integers of the first row of `sql`'s result; the receipt
/// records the SQL handed to SQLite.
fn query_three(conn: &SqliteConnection, sql: &str) -> (r: (Result<(i64, i64, i64), rusqlite::Error>, Receipt))
    ensures
        r.1.request() == Request::Sql(sql@),
        r.0 is Ok ==> r.1.ok(),
{
    let (prepared, ran) = sqlite::prepare(conn, sql);
    let mut stmt = match prepared {
        Ok(s) => s,
        Err(e) => {
            return (Err(e), ran);
        },
    };
    let mut rows = sqlite_query(&mut stmt);
    let row = match sqlite_next_row(&mut rows) {
        Ok(Some(row)) => row,
        Ok(None) => {
            return (Ok((0, -1, -1)), ran);
        },
        Err(e) => {
            return (Err(e), ran);
        },
    };
    let a = match sqlite_row_i64(row, 0) {
        Ok(v) => v,
        Err(e) => {
            return (Err(e), ran);
        },
    };
    let b = match sqlite_row_i64(row, 1) {
        Ok(v) => v,
        Err(e) => {
            return (Err(e), ran);
        },
    };
    let c = match sqlite_row_i64(row, 2) {
        Ok(v) => v,
        Err(e) => {
            return (Err(e), ran);
        },
    };
    (Ok((a, b, c)), ran)
}

/// `v` clamped into the `i32` range.
pub open spec fn clamp_i32_spec(v: int) -> i32 {
    if v > i32::MAX {
        i32::MAX
    } else if v < i32::MIN {
        i32::MIN
    } else {
        v as i32
    }
}

/// Clamps `v` into the `i32` range.
fn clamp_i32(v: i64) -> (r: i32)
    ensures
        r == clamp_i32_spec(v as int),
{
    if v > i32::MAX as i64 {
        i32::MAX
    } else if v < i32::MIN as i64 {
        i32::MIN
    } else {
        v as i32
    }
}

/// The message of a checkpoint that did not finish: SQLite's result code
/// and the two frame counts it reported (-1 where it reported none).
pub open spec fn checkpoint_failure_spec(rc: int, n_log: int, n_ckpt: int) -> Seq<char> {
    "snr_wal_checkpoint: rc="@ + crate::text::signed_decimal(rc) + " n_log="@ + crate::text::signed_decimal(n_log)
        + " n_ckpt="@ + crate::text::signed_decimal(n_ckpt)
}

/// The message of a checkpoint that did not finish (see
/// [`checkpoint_failure_spec`]).
fn checkpoint_failure(rc: i32, n_log: i64, n_ckpt: i64) -> (m: String)
    ensures
        m@ == checkpoint_failure_spec(rc as int, n_log as int, n_ckpt as int),
{
    let mut m = String::new();
    push_str(&mut m, "snr_wal_checkpoint: rc=");
    crate::text::push_signed(&mut m, rc as i64);
    push_str(&mut m, " n_log=");
    crate::text::push_signed(&mut m, n_log);
    push_str(&mut m, " n_ckpt=");
    crate::text::push_signed(&mut m, n_ckpt);
    m
}

/// What a checkpoint's answer `(busy, n_log, n_ckpt)` means: the frames in
/// the WAL and the frames checkpointed (clamped into `i32`) when it could
/// finish, or the message recorded when a lock stopped it (`SQLITE_BUSY`, 5).
pub open spec fn checkpoint_outcome_spec(busy: i64, n_log: i64, n_ckpt: i64) -> Result<(i32, i32), Seq<char>> {
    if busy != 0 {
        Err(checkpoint_failure_spec(5, n_log as int, n_ckpt as int))
    } else {
        Ok((clamp_i32_spec(n_log as int), clamp_i32_spec(n_ckpt as int)))
    }
}

/// Reads a checkpoint's answer `(busy, n_log, n_ckpt)`: the two frame counts
/// when it finished, or the message that a lock stopped it.
pub fn checkpoint_outcome(busy: i64, n_log: i64, n_ckpt: i64) -> (r: Result<(i32, i32), String>)
    ensures
        match r {
            Ok(p) => checkpoint_outcome_spec(busy, n_log, n_ckpt) == Ok::<(i32, i32), Seq<char>>(p),
            Err(m) => checkpoint_outcome_spec(busy, n_log, n_ckpt) == Err::<(i32, i32), Seq<char>>(m@),
        },
{
    if busy != 0 {
        Err(checkpoint_failure(5, n_log, n_ckpt))
    } else {
        Ok((clamp_i32(n_log), clamp_i32(n_ckpt)))
    }
}

/// The checkpoint statement that `snr_wal_checkpoint` hands to SQLite, once
/// there is a connection and the mode is known.
pub open spec fn checkpoint_sent(handle_present: bool, db_name: Option<Seq<char>>, mode: i32) -> Option<Seq<char>> {
    if handle_present {
        match checkpoint_mode_name(mode) {
            Some(k) => Some(checkpoint_sql_spec(db_name, k)),
            None => None,
        }
    } else {
        None
    }
}

/// Runs a WAL checkpoint of `db_name` (the main database where it is
/// absent or empty) in mode `mode`. On success gives the number of frames in
/// the WAL and the number checkpointed (both -1 for a database not in WAL
/// mode); an unknown mode, a failed statement or a checkpoint that could not
/// finish because of a lock give `None` with `rc=… n_log=… n_ckpt=…` in
/// `err` (see [`checkpoint_failure_spec`]). The receipt records the statement
/// handed to SQLite; what SQLite answers is read by [`checkpoint_outcome`].
pub fn snr_wal_checkpoint(handle: Option<&Handle>, db_name: Option<&str>, mode: i32, err: &mut ErrorSlot) -> (r: (Option<(i32, i32)>, Sent))
    ensures
        handle is None ==> r.0 is None && final(err)@ == Some(
            crate::error::truncate_at_nul("snr_wal_checkpoint: handle nulo"@),
        ),
        handle is Some && checkpoint_mode_name(mode) is None ==> r.0 is None && final(err)@ == Some(
            crate::error::truncate_at_nul("snr_wal_checkpoint: rc=21 n_log=-1 n_ckpt=-1"@),
        ),
        sent_sql(r.1) == checkpoint_sent(handle is Some, opt_view(db_name), mode),
        r.0 matches Some(p) ==> exists|busy: i64, n_log: i64, n_ckpt: i64|
            checkpoint_outcome_spec(busy, n_log, n_ckpt) == Ok::<(i32, i32), Seq<char>>(p),
        handle is Some && r.0 is None ==> exists|rc: i32, n_log: i64, n_ckpt: i64|
            final(err)@ == Some(crate::error::truncate_at_nul(#[trigger] checkpoint_failure_spec(rc as int, n_log as int, n_ckpt as int))),
        r.0 is Some <==> final(err)@ is None,
        r.0 is Some ==> sent_ok(r.1),
{
    err.clear();
    let h = match handle {
        Some(h) => h,
        None => {
            err.set("snr_wal_checkpoint: handle nulo");
            return (None, None);
        },
    };
    let keyword = match checkpoint_mode_keyword(mode) {
        Some(k) => k,
        None => {
            let m = checkpoint_failure(21, -1, -1);
            proof {
                reveal_strlit("snr_wal_checkpoint: rc=");
                reveal_strlit(" n_log=");
                reveal_strlit(" n_ckpt=");
                reveal_strlit("snr_wal_checkpoint: rc=21 n_log=-1 n_ckpt=-1");
                assert(crate::text::decimal(2) == seq!['2']);
                assert(crate::text::decimal(1) == seq!['1']);
                assert(crate::text::decimal(21) == crate::text::decimal(2).push('1'));
                assert(crate::text::signed_decimal(21) =~= seq!['2', '1']);
                assert(crate::text::signed_decimal(-1) =~= seq!['-', '1']);
                assert(m@ =~= "snr_wal_checkpoint: rc=21 n_log=-1 n_ckpt=-1"@);
            }
            err.set(m.as_str());
            return (None, None);
        },
    };
    let sql = checkpoint_sql(db_name, keyword);
    let (answer, ran) = query_three(&h.conn, sql.as_str());
    let sent: Sent = Some(ran);
    match answer {
        Ok((busy, n_log, n_ckpt)) => match checkpoint_outcome(busy, n_log, n_ckpt) {
            Ok(p) => (Some(p), sent),
            Err(m) => {
                err.set(m.as_str());
                assert(m@ == checkpoint_failure_spec(5i32 as int, n_log as int, n_ckpt as int));
                (None, sent)
            },
        },
        Err(e) => {
            let rc = crate::statement::failure_code(&e);
            let m = checkpoint_failure(rc, -1, -1);
            err.set(m.as_str());
            (None, sent)
        },
    }
}

/// The statement that sets the WAL auto-checkpoint to `n` frames.
pub open spec fn autocheckpoint_sql_spec(n: i32) -> Seq<char> {
    "PRAGMA wal_autocheckpoint="@ + crate::text::signed_decimal(n as int)
}

/// Sets the WAL auto-checkpoint to every `n` frames (0 or less turns it off).
/// The receipt records the statement handed to SQLite.
pub fn snr_wal_autocheckpoint(handle: Option<&Handle>, n: i32, err: &mut ErrorSlot) -> (r: (i32, Sent))
    ensures
        handle is None ==> r.0 == -1 && final(err)@ == Some(
            crate::error::truncate_at_nul("snr_wal_autocheckpoint: handle nulo"@),
        ),
        sent_sql(r.1) == fixed_sent(handle is Some, autocheckpoint_sql_spec(n)),
        r.0 == 0 || r.0 == -1,
        r.0 == 0 <==> final(err)@ is None,
        r.0 == 0 <==> sent_ok(r.1),
{
    err.clear();
    let h = match handle {
        Some(h) => h,
        None => {
            err.set("snr_wal_autocheckpoint: handle nulo");
            return (-1, None);
        },
    };
    let mut sql = String::new();
    push_str(&mut sql, "PRAGMA wal_autocheckpoint=");
    crate::text::push_signed(&mut sql, n as i64);
    let (done, ran) = sqlite::execute_batch(&h.conn, sql.as_str());
    let sent: Sent = Some(ran);
    match done {
        Ok(()) => (0, sent),
        Err(e) => {
            fail_sqlite(err, "snr_wal_autocheckpoint", &e);
            (-1, sent)
        },
    }
}


} // verus!
