//! The worker's database access: one connection per thread, opened in WAL
//! mode, with prepared statements tied to the connection that made them.
use vstd::prelude::*;
use crate::engine::{
    snr_begin_immediate, snr_commit, snr_exec, snr_open, snr_rollback, snr_set_busy_timeout,
    checkpoint_sql_spec, open_request, receipt_sql, sent_ok, sent_sql, snr_wal_checkpoint, starts_with, Handle,
    Sent,
};
use crate::statement::{
    parameter_position, snr_bind_null, snr_bind_text, snr_prepare, snr_step, snr_stmt_clear_bindings,
    snr_stmt_reset, step_outcome, BoundValue, StmtHandle, StmtState,
};
use crate::error::ErrorSlot;
use crate::runtime::{open_flags_spec, SNR_CHECKPOINT_TRUNCATE};
use crate::text::{chars_of, decimal, push_decimal, push_signed, push_str, signed_decimal, string_from_chars};

verus! {

/// The number of bytes `c` takes in UTF-8.
pub open spec fn utf8_len(c: char) -> nat {
    if (c as u32) < 0x80 {
        1
    } else if (c as u32) < 0x800 {
        2
    } else if (c as u32) < 0x10000 {
        3
    } else {
        4
    }
}

/// The number of bytes `s` takes in UTF-8.
pub open spec fn utf8_size(s: Seq<char>) -> nat
    decreases s.len(),
{
    if s.len() == 0 {
        0
    } else {
        utf8_size(s.drop_last()) + utf8_len(s.last())
    }
}

/// The position of the first NUL character of `s`, if any.
pub open spec fn first_nul(s: Seq<char>) -> Option<int> {
    if exists|i: int| 0 <= i < s.len() && s[i] == '\u{0}' {
        Some(choose|i: int| 0 <= i < s.len() && s[i] == '\u{0}' && forall|j: int| 0 <= j < i ==> s[j] != '\u{0}')
    } else {
        None
    }
}

/// The message that refuses `s` as a C string when it holds a NUL at
/// character position `i`: the NUL's byte offset is reported.
pub open spec fn nul_message(prefix: Seq<char>, s: Seq<char>, i: int) -> Seq<char> {
    prefix + "nul byte found in provided data at position: "@ + decimal(utf8_size(s.take(i)))
}

/// The text `s` would refuse to become a C string with, if it holds a NUL.
fn nul_error(prefix: &str, s: &str) -> (r: Option<String>)
    ensures
        match r {
            Some(m) => first_nul(s@) matches Some(i) && m@ == nul_message(prefix@, s@, i),
            None => first_nul(s@) is None,
        },
{
    let v = chars_of(s);
    let mut i: usize = 0;
    let mut bytes: u128 = 0;
    assert(v@.take(0) =~= Seq::<char>::empty());
    while i < v.len()
        invariant
            i <= v@.len(),
            v@ == s@,
            forall|j: int| 0 <= j < i ==> v@[j] != '\u{0}',
            bytes as nat == utf8_size(v@.take(i as int)),
            bytes <= 4 * i,
        decreases v@.len() - i,
    {
        let c = v[i];
        if c == '\u{0}' {
            let mut m = String::new();
            push_str(&mut m, prefix);
            push_str(&mut m, "nul byte found in provided data at position: ");
            push_decimal(&mut m, bytes as u128);
            proof {
                assert(v@[i as int] == '\u{0}');
                let k = choose|k: int| 0 <= k < s@.len() && s@[k] == '\u{0}' && forall|j: int| 0 <= j < k ==> s@[j] != '\u{0}';
                assert(k == i) by {
                    if k < i {
                        assert(v@[k] != '\u{0}');
                    }
                    if k > i {
                        assert(s@[i as int] == '\u{0}');
                    }
                }
            }
            return Some(m);
        }
        let w: u128 = if (c as u32) < 0x80 {
            1
        } else if (c as u32) < 0x800 {
            2
        } else if (c as u32) < 0x10000 {
            3
        } else {
            4
        };
        assert(v@.take(i + 1).drop_last() =~= v@.take(i as int));
        bytes = bytes + w;
        i = i + 1;
    }
    proof {
        if exists|k: int| 0 <= k < s@.len() && s@[k] == '\u{0}' {
            let k = choose|k: int| 0 <= k < s@.len() && s@[k] == '\u{0}';
            assert(v@[k] != '\u{0}');
        }
    }
    None
}

/// The parameters after binding `v` to parameter `idx`: bound where the
/// bind succeeded, as they were otherwise.
pub open spec fn bound_if_ok(before: Map<int, BoundValue>, idx: i32, v: BoundValue, ok: bool) -> Map<int, BoundValue> {
    if ok {
        before.insert(parameter_position(idx) as int, v)
    } else {
        before
    }
}

/// Whether `r` is an error whose message begins with `p`.
pub open spec fn err_starting<T>(r: Result<T, String>, p: Seq<char>) -> bool {
    match r {
        Err(m) => starts_with(m@, p),
        Ok(_) => false,
    }
}

/// The message the slot holds, or a fixed text where it holds none.
pub open spec fn last_error_text(e: Option<Seq<char>>) -> Seq<char> {
    match e {
        Some(m) => m,
        None => "error desconocido (no hay mensaje de error disponible)"@,
    }
}

/// `prefix` followed by the slot's message.
fn with_last_error(prefix: String, err: &ErrorSlot) -> (m: String)
    ensures
        m@ == prefix@ + last_error_text(err@),
{
    let mut m = prefix;
    match err.last_error() {
        Some(e) => push_str(&mut m, e),
        None => push_str(&mut m, "error desconocido (no hay mensaje de error disponible)"),
    }
    m
}

fn text(s: &str) -> (r: String)
    ensures
        r@ == s@,
{
    string_from_chars(chars_of(s).as_slice())
}


/// A database connection owned by one thread.
pub struct Connection {
    handle: Handle,
    setup: Vec<crate::sqlite::Receipt>,
}

/// A prepared statement; it cannot outlive the connection that prepared it.
pub struct Stmt<'c> {
    stmt: StmtHandle<'c>,
}

/// The settings applied to every connection: WAL journal, NORMAL
/// synchronization, a 4 MB cache, and a WAL auto-checkpoint every 1000 frames.
pub open spec fn connection_pragmas() -> Seq<Seq<char>> {
    seq![
        "PRAGMA journal_mode=WAL"@,
        "PRAGMA synchronous=NORMAL"@,
        "PRAGMA cache_size=-4096"@,
        "PRAGMA wal_autocheckpoint=1000"@,
    ]
}

/// Whether `m` is a message `exec` gives for a failure of `sql`: the refusal
/// of a NUL character, or the SQLite failure message.
pub open spec fn exec_failed_with(m: Seq<char>, sql: Seq<char>) -> bool {
    match first_nul(sql) {
        Some(i) => m == nul_message("SQL contiene byte nulo: "@, sql, i),
        None => starts_with(m, exec_failure_prefix(sql)),
    }
}

/// The prefix of the message for a failed `exec` of `sql`.
pub open spec fn exec_failure_prefix(sql: Seq<char>) -> Seq<char> {
    "exec falló (rc=-1) SQL='"@ + sql + "': "@
}

impl Connection {
    /// The path and flags the database was opened with.
    pub closed spec fn opened_with(&self) -> (Seq<char>, i32) {
        self.handle.opened_with()
    }

    /// The settings handed to SQLite when the connection was opened, in
    /// order, as their receipts record them.
    pub closed spec fn setup(&self) -> Seq<Seq<char>> {
        self.setup@.map_values(|rc: crate::sqlite::Receipt| receipt_sql(rc))
    }

    /// Whether SQLite accepted every setting.
    pub closed spec fn setup_ok(&self) -> bool {
        forall|i: int| 0 <= i < self.setup@.len() ==> #[trigger] self.setup@[i].ok()
    }

    /// Opens (or creates) the database at `real_path` (the resolved form of
    /// `path`, which the messages name), sets the busy timeout and switches
    /// to WAL with the connection settings.
    pub fn open(path: &str, real_path: &str, busy_timeout_ms: i32) -> (r: (Result<Connection, String>, Sent))
        ensures
            first_nul(real_path@) is None && r.0 is Err ==> open_request(r.1) == Some((real_path@, open_flags_spec(0))),
            first_nul(real_path@) is Some ==> r.1 is None,
            r.0 is Ok ==> r.1 is None,
            r.0 matches Ok(c) ==> c.opened_with() == (real_path@, open_flags_spec(0)) && c.setup()
                == connection_pragmas() && c.setup_ok(),
            first_nul(real_path@) matches Some(i) ==> r.0 matches Err(m) && m@ == nul_message(
                "path contiene byte nulo: "@,
                real_path@,
                i,
            ),
            match r.0 {
                Err(m) => first_nul(real_path@) is None ==> {
                    ||| starts_with(m@, "snr_open('"@ + path@ + "') falló: "@)
                    ||| starts_with(
                        m@,
                        "set_busy_timeout("@ + signed_decimal(busy_timeout_ms as int) + ") falló (rc=-1): "@,
                    )
                    ||| exists|k: int|
                        0 <= k < 4 && #[trigger] starts_with(m@, exec_failure_prefix(connection_pragmas()[k]))
                },
                Ok(_) => true,
            },
    {
        if let Some(m) = nul_error("path contiene byte nulo: ", real_path) {
            return (Err(m), None);
        }
        let mut err = ErrorSlot::new();
        let (opened, sent) = snr_open(Some(real_path), 0, &mut err);
        let handle = match opened {
            Some(h) => h,
            None => {
                let mut p = String::new();
                push_str(&mut p, "snr_open('");
                push_str(&mut p, path);
                push_str(&mut p, "') falló: ");
                let m = with_last_error(p, &err);
                assert(m@.take(("snr_open('"@ + path@ + "') falló: "@).len() as int) =~= "snr_open('"@ + path@ + "') falló: "@);
                return (Err(m), sent);
            },
        };
        let mut conn = Connection { handle, setup: Vec::new() };
        let (rc, _) = snr_set_busy_timeout(Some(&conn.handle), busy_timeout_ms, &mut err);
        if rc != 0 {
            let mut p = String::new();
            push_str(&mut p, "set_busy_timeout(");
            push_signed(&mut p, busy_timeout_ms as i64);
            push_str(&mut p, ") falló (rc=");
            push_signed(&mut p, rc as i64);
            push_str(&mut p, "): ");
            let ghost pre = "set_busy_timeout("@ + signed_decimal(busy_timeout_ms as int) + ") falló (rc=-1): "@;
            proof {
                assert(signed_decimal(-1) =~= seq!['-'] + decimal(1));
                reveal_strlit(") falló (rc=");
                reveal_strlit("): ");
                reveal_strlit(") falló (rc=-1): ");
                assert(decimal(1) == seq!['1']);
                assert(p@ =~= pre);
            }
            let m = with_last_error(p, &err);
            assert(m@.take(pre.len() as int) =~= pre);
            return (Err(m), Some(conn.handle.into_receipt()));
        }
        proof {
            reveal_strlit("PRAGMA journal_mode=WAL");
            reveal_strlit("PRAGMA synchronous=NORMAL");
            reveal_strlit("PRAGMA cache_size=-4096");
            reveal_strlit("PRAGMA wal_autocheckpoint=1000");
            assert(first_nul("PRAGMA journal_mode=WAL"@) is None);
            assert(first_nul("PRAGMA synchronous=NORMAL"@) is None);
            assert(first_nul("PRAGMA cache_size=-4096"@) is None);
            assert(first_nul("PRAGMA wal_autocheckpoint=1000"@) is None);
        }
        let (r1, s1) = conn.exec("PRAGMA journal_mode=WAL");
        if let Err(m) = r1 {
            assert(starts_with(m@, exec_failure_prefix(connection_pragmas()[0])));
            return (Err(m), Some(conn.handle.into_receipt()));
        }
        let (r2, s2) = conn.exec("PRAGMA synchronous=NORMAL");
        if let Err(m) = r2 {
            assert(starts_with(m@, exec_failure_prefix(connection_pragmas()[1])));
            return (Err(m), Some(conn.handle.into_receipt()));
        }
        let (r3, s3) = conn.exec("PRAGMA cache_size=-4096");
        if let Err(m) = r3 {
            assert(starts_with(m@, exec_failure_prefix(connection_pragmas()[2])));
            return (Err(m), Some(conn.handle.into_receipt()));
        }
        let (r4, s4) = conn.exec("PRAGMA wal_autocheckpoint=1000");
        if let Err(m) = r4 {
            assert(starts_with(m@, exec_failure_prefix(connection_pragmas()[3])));
            return (Err(m), Some(conn.handle.into_receipt()));
        }
        let mut setup: Vec<crate::sqlite::Receipt> = Vec::new();
        if let Some(rc) = s1 {
            setup.push(rc);
        }
        if let Some(rc) = s2 {
            setup.push(rc);
        }
        if let Some(rc) = s3 {
            setup.push(rc);
        }
        if let Some(rc) = s4 {
            setup.push(rc);
        }
        conn.setup = setup;
        assert(conn.setup() =~= connection_pragmas());
        (Ok(conn), None)
    }

    /// Runs SQL without parameters (DDL and PRAGMAs). The receipt records the SQL
    /// handed to SQLite: none when it holds a NUL and is refused first.
    pub fn exec(&self, sql: &str) -> (r: (Result<(), String>, Sent))
        ensures
            first_nul(sql@) matches Some(i) ==> r.0 matches Err(m) && m@ == nul_message(
                "SQL contiene byte nulo: "@,
                sql@,
                i,
            ),
            match r.0 {
                Err(m) => exec_failed_with(m@, sql@),
                Ok(_) => first_nul(sql@) is None,
            },
            sent_sql(r.1) == (if first_nul(sql@) is None { Some(sql@) } else { None }),
            first_nul(sql@) is Some ==> r.1 is None,
            r.0 is Ok <==> sent_ok(r.1),
    {
        if let Some(m) = nul_error("SQL contiene byte nulo: ", sql) {
            return (Err(m), None);
        }
        let mut err = ErrorSlot::new();
        let (rc, sent) = snr_exec(Some(&self.handle), Some(sql), &mut err);
        if rc != 0 {
            let mut p = String::new();
            push_str(&mut p, "exec falló (rc=");
            push_signed(&mut p, rc as i64);
            push_str(&mut p, ") SQL='");
            push_str(&mut p, sql);
            push_str(&mut p, "': ");
            proof {
                assert(signed_decimal(-1) =~= seq!['-'] + decimal(1));
                assert(decimal(1) == seq!['1']);
                reveal_strlit("exec falló (rc=");
                reveal_strlit(") SQL='");
                reveal_strlit("exec falló (rc=-1) SQL='");
                assert(p@ =~= exec_failure_prefix(sql@));
            }
            let m = with_last_error(p, &err);
            assert(m@.take(exec_failure_prefix(sql@).len() as int) =~= exec_failure_prefix(sql@));
            return (Err(m), sent);
        }
        (Ok(()), sent)
    }

    /// Starts an `IMMEDIATE` transaction (the write lock is taken at once).
    /// The receipt records the statement handed to SQLite.
    pub fn begin_immediate(&self) -> (r: (Result<(), String>, Sent))
        ensures
            r.0 matches Err(m) ==> starts_with(m@, "BEGIN IMMEDIATE falló (rc=-1): "@),
            sent_sql(r.1) == Some("BEGIN IMMEDIATE"@),
            r.0 is Ok <==> sent_ok(r.1),
    {
        let mut err = ErrorSlot::new();
        let (rc, sent) = snr_begin_immediate(Some(&self.handle), &mut err);
        let r = Self::check(rc, "BEGIN IMMEDIATE falló (rc=", &err);
        proof {
            reveal_strlit("BEGIN IMMEDIATE falló (rc=");
            reveal_strlit("-1): ");
            reveal_strlit("BEGIN IMMEDIATE falló (rc=-1): ");
            assert("BEGIN IMMEDIATE falló (rc="@ + "-1): "@ =~= "BEGIN IMMEDIATE falló (rc=-1): "@);
        }
        (r, sent)
    }

    /// Commits the open transaction.
    /// The receipt records the statement handed to SQLite.
    pub fn commit(&self) -> (r: (Result<(), String>, Sent))
        ensures
            r.0 matches Err(m) ==> starts_with(m@, "COMMIT falló (rc=-1): "@),
            sent_sql(r.1) == Some("COMMIT"@),
            r.0 is Ok <==> sent_ok(r.1),
    {
        let mut err = ErrorSlot::new();
        let (rc, sent) = snr_commit(Some(&self.handle), &mut err);
        let r = Self::check(rc, "COMMIT falló (rc=", &err);
        proof {
            reveal_strlit("COMMIT falló (rc=");
            reveal_strlit("-1): ");
            reveal_strlit("COMMIT falló (rc=-1): ");
            assert("COMMIT falló (rc="@ + "-1): "@ =~= "COMMIT falló (rc=-1): "@);
        }
        (r, sent)
    }

    /// Rolls the open transaction back.
    /// The receipt records the statement handed to SQLite.
    pub fn rollback(&self) -> (r: (Result<(), String>, Sent))
        ensures
            r.0 matches Err(m) ==> starts_with(m@, "ROLLBACK falló (rc=-1): "@),
            sent_sql(r.1) == Some("ROLLBACK"@),
            r.0 is Ok <==> sent_ok(r.1),
    {
        let mut err = ErrorSlot::new();
        let (rc, sent) = snr_rollback(Some(&self.handle), &mut err);
        let r = Self::check(rc, "ROLLBACK falló (rc=", &err);
        proof {
            reveal_strlit("ROLLBACK falló (rc=");
            reveal_strlit("-1): ");
            reveal_strlit("ROLLBACK falló (rc=-1): ");
            assert("ROLLBACK falló (rc="@ + "-1): "@ =~= "ROLLBACK falló (rc=-1): "@);
        }
        (r, sent)
    }

    /// `Ok` for a zero result code, else `{what}{rc}): {message}`.
    fn check(rc: i32, what: &str, err: &ErrorSlot) -> (r: Result<(), String>)
        requires
            rc == 0 || rc == -1,
        ensures
            rc == 0 ==> r is Ok,
            rc != 0 ==> err_starting(r, what@ + "-1): "@),
            rc != 0 ==> (r matches Err(m) && m@ == what@ + "-1): "@ + last_error_text(err@)),
    {
        if rc == 0 {
            return Ok(());
        }
        let mut p = String::new();
        push_str(&mut p, what);
        push_signed(&mut p, rc as i64);
        push_str(&mut p, "): ");
        proof {
            assert(signed_decimal(-1) =~= seq!['-'] + decimal(1));
            assert(decimal(1) == seq!['1']);
            reveal_strlit("): ");
            reveal_strlit("-1): ");
            assert(p@ =~= what@ + "-1): "@);
        }
        let m = with_last_error(p, err);
        assert(m@.take((what@ + "-1): "@).len() as int) =~= what@ + "-1): "@);
        Err(m)
    }

    /// Empties the WAL with a `TRUNCATE` checkpoint (on a clean shutdown).
    /// The receipt records the statement handed to SQLite.
    pub fn wal_checkpoint_truncate(&self) -> (r: (Result<(), String>, Sent))
        ensures
            r.0 matches Err(m) ==> starts_with(m@, "WAL TRUNCATE checkpoint falló (rc=-1): "@),
            sent_sql(r.1) == Some(checkpoint_sql_spec(None, "TRUNCATE"@)),
            r.0 is Ok ==> sent_ok(r.1),
    {
        let mut err = ErrorSlot::new();
        let (done, sent) = snr_wal_checkpoint(Some(&self.handle), None, SNR_CHECKPOINT_TRUNCATE, &mut err);
        let rc: i32 = match done {
            Some(_) => 0,
            None => -1,
        };
        let r = Self::check(rc, "WAL TRUNCATE checkpoint falló (rc=", &err);
        proof {
            reveal_strlit("WAL TRUNCATE checkpoint falló (rc=");
            reveal_strlit("-1): ");
            reveal_strlit("WAL TRUNCATE checkpoint falló (rc=-1): ");
            assert("WAL TRUNCATE checkpoint falló (rc="@ + "-1): "@ =~= "WAL TRUNCATE checkpoint falló (rc=-1): "@);
        }
        (r, sent)
    }

    /// Prepares `sql`; the statement cannot outlive this connection.
    pub fn prepare<'c>(&'c self, sql: &str) -> (r: Result<Stmt<'c>, String>)
        ensures
            first_nul(sql@) matches Some(i) ==> r matches Err(m) && m@ == nul_message(
                "SQL contiene byte nulo: "@,
                sql@,
                i,
            ),
            match r {
                Err(m) => first_nul(sql@) is None ==> starts_with(m@, "prepare falló SQL='"@ + sql@ + "': "@),
                Ok(st) => first_nul(sql@) is None && st.state() is Ready && st.sql() == sql@ && st.bound()
                    == Map::<int, BoundValue>::empty() && st.runs() == Seq::<Map<int, BoundValue>>::empty(),
            },
    {
        if let Some(m) = nul_error("SQL contiene byte nulo: ", sql) {
            return Err(m);
        }
        let mut err = ErrorSlot::new();
        match snr_prepare(Some(&self.handle), Some(sql), &mut err) {
            Some(stmt) => Ok(Stmt { stmt }),
            None => {
                let mut p = String::new();
                push_str(&mut p, "prepare falló SQL='");
                push_str(&mut p, sql);
                push_str(&mut p, "': ");
                let m = with_last_error(p, &err);
                assert(m@.take(("prepare falló SQL='"@ + sql@ + "': "@).len() as int) =~= "prepare falló SQL='"@ + sql@ + "': "@);
                Err(m)
            },
        }
    }
}

impl<'c> Stmt<'c> {
    /// Where the statement stands (see [`StmtState`]).
    pub closed spec fn state(&self) -> StmtState {
        self.stmt@
    }

    /// The SQL the statement was prepared from.
    pub closed spec fn sql(&self) -> Seq<char> {
        self.stmt.sql()
    }

    /// The values bound to its parameters, by (1-based) position.
    pub closed spec fn bound(&self) -> Map<int, BoundValue> {
        self.stmt.bound()
    }

    /// The parameters of each run handed to SQLite, in order.
    pub closed spec fn runs(&self) -> Seq<Map<int, BoundValue>> {
        self.stmt.runs()
    }

    /// `Ok` for a zero result code, else `{what}{rc}): {message}`.
    fn check_code(rc: i32, what: String, err: &ErrorSlot) -> (r: Result<(), String>)
        requires
            rc == 0 || rc == -1,
        ensures
            rc == 0 ==> r is Ok,
            rc != 0 ==> err_starting(r, what@ + "-1): "@),
            rc != 0 ==> (r matches Err(m) && m@ == what@ + "-1): "@ + last_error_text(err@)),
    {
        if rc == 0 {
            return Ok(());
        }
        let mut p = what;
        let ghost w = p@;
        push_signed(&mut p, rc as i64);
        push_str(&mut p, "): ");
        proof {
            assert(signed_decimal(-1) =~= seq!['-'] + decimal(1));
            assert(decimal(1) == seq!['1']);
            reveal_strlit("): ");
            reveal_strlit("-1): ");
            assert(p@ =~= w + "-1): "@);
        }
        let m = with_last_error(p, err);
        assert(m@.take((w + "-1): "@).len() as int) =~= w + "-1): "@);
        Err(m)
    }

    /// Binds UTF-8 text to parameter `idx` (1-based).
    pub fn bind_text(&mut self, idx: i32, val: &str) -> (r: Result<(), String>)
        ensures
            final(self).state() == old(self).state(),
            final(self).sql() == old(self).sql() && final(self).runs() == old(self).runs(),
            final(self).bound() == bound_if_ok(old(self).bound(), idx, BoundValue::Text(val@), r is Ok),
            !(old(self).state() is Ready) ==> r is Err,
            first_nul(val@) matches Some(i) ==> r matches Err(m) && m@ == nul_message(
                "valor bind contiene byte nulo: "@,
                val@,
                i,
            ),
            match r {
                Err(m) => first_nul(val@) is None ==> starts_with(
                    m@,
                    "bind_text(idx="@ + signed_decimal(idx as int) + ") falló (rc=-1): "@,
                ),
                Ok(_) => first_nul(val@) is None,
            },
    {
        if let Some(m) = nul_error("valor bind contiene byte nulo: ", val) {
            return Err(m);
        }
        let mut err = ErrorSlot::new();
        let rc = snr_bind_text(Some(&mut self.stmt), idx, Some(val), &mut err);
        let mut w = String::new();
        push_str(&mut w, "bind_text(idx=");
        push_signed(&mut w, idx as i64);
        push_str(&mut w, ") falló (rc=");
        let r = Self::check_code(rc, w, &err);
        proof {
            reveal_strlit(") falló (rc=");
            reveal_strlit(") falló (rc=-1): ");
            reveal_strlit("-1): ");
            assert("bind_text(idx="@ + signed_decimal(idx as int) + ") falló (rc="@ + "-1): "@ =~= "bind_text(idx="@
                + signed_decimal(idx as int) + ") falló (rc=-1): "@);
        }
        r
    }

    /// Binds text, or NULL where there is none.
    pub fn bind_text_opt(&mut self, idx: i32, val: Option<&str>) -> (r: Result<(), String>)
        ensures
            final(self).state() == old(self).state(),
            final(self).sql() == old(self).sql() && final(self).runs() == old(self).runs(),
            final(self).bound() == bound_if_ok(
                old(self).bound(),
                idx,
                match val {
                    Some(v) => BoundValue::Text(v@),
                    None => BoundValue::Null,
                },
                r is Ok,
            ),
            !(old(self).state() is Ready) ==> r is Err,
            val is None ==> (r matches Err(m) ==> starts_with(
                m@,
                "bind_null(idx="@ + signed_decimal(idx as int) + ") falló (rc=-1): "@,
            )),
            val matches Some(v) ==> (first_nul(v@) is Some ==> r is Err),
    {
        match val {
            Some(s) => self.bind_text(idx, s),
            None => self.bind_null(idx),
        }
    }

    /// Binds NULL to parameter `idx` (1-based).
    pub fn bind_null(&mut self, idx: i32) -> (r: Result<(), String>)
        ensures
            final(self).state() == old(self).state(),
            final(self).sql() == old(self).sql() && final(self).runs() == old(self).runs(),
            final(self).bound() == bound_if_ok(old(self).bound(), idx, BoundValue::Null, r is Ok),
            !(old(self).state() is Ready) ==> r is Err,
            r matches Err(m) ==> starts_with(
                m@,
                "bind_null(idx="@ + signed_decimal(idx as int) + ") falló (rc=-1): "@,
            ),
    {
        let mut err = ErrorSlot::new();
        let rc = snr_bind_null(Some(&mut self.stmt), idx, &mut err);
        let mut w = String::new();
        push_str(&mut w, "bind_null(idx=");
        push_signed(&mut w, idx as i64);
        push_str(&mut w, ") falló (rc=");
        let r = Self::check_code(rc, w, &err);
        proof {
            reveal_strlit(") falló (rc=");
            reveal_strlit(") falló (rc=-1): ");
            reveal_strlit("-1): ");
            assert("bind_null(idx="@ + signed_decimal(idx as int) + ") falló (rc="@ + "-1): "@ =~= "bind_null(idx="@
                + signed_decimal(idx as int) + ") falló (rc=-1): "@);
        }
        r
    }

    /// Runs the statement once: `Ok(true)` when it produced a row, `Ok(false)`
    /// when it finished.
    pub fn step(&mut self) -> (r: Result<bool, String>)
        ensures
            step_outcome(
                old(self).state(),
                final(self).state(),
                match r {
                    Ok(true) => 1i32,
                    Ok(false) => 0i32,
                    Err(_) => -1i32,
                },
            ),
            r matches Err(m) ==> starts_with(m@, "step falló (rc=-1): "@),
            final(self).sql() == old(self).sql() && final(self).bound() == old(self).bound(),
            old(self).state() is Rows ==> final(self).runs() == old(self).runs(),
            !(old(self).state() is Rows) ==> final(self).runs() == old(self).runs().push(old(self).bound()),
    {
        let mut err = ErrorSlot::new();
        let rc = snr_step(Some(&mut self.stmt), &mut err);
        if rc == 1 {
            Ok(true)
        } else if rc == 0 {
            Ok(false)
        } else {
            match Self::check_code(rc, text("step falló (rc="), &err) {
                Err(m) => {
                    proof {
                        reveal_strlit("step falló (rc=");
                        reveal_strlit("-1): ");
                        reveal_strlit("step falló (rc=-1): ");
                        assert("step falló (rc="@ + "-1): "@ =~= "step falló (rc=-1): "@);
                    }
                    Err(m)
                },
                Ok(()) => Ok(false),
            }
        }
    }

    /// Makes the statement ready to run again with new bindings.
    pub fn reset(&mut self) -> (r: Result<(), String>)
        ensures
            final(self).state() is Ready,
            final(self).sql() == old(self).sql() && final(self).runs() == old(self).runs(),
            final(self).bound() == old(self).bound(),
            r is Ok <==> !(old(self).state() matches StmtState::Halted(Some(_))),
            old(self).state() matches StmtState::Halted(Some(c)) ==> (r matches Err(m) && starts_with(
                m@,
                "reset falló (rc=-1): snr_stmt_reset: rc="@ + signed_decimal(c as int),
            )),
    {
        let mut err = ErrorSlot::new();
        let ghost before = self.stmt@;
        let rc = snr_stmt_reset(Some(&mut self.stmt), &mut err);
        let r = Self::check_code(rc, text("reset falló (rc="), &err);
        proof {
            if let StmtState::Halted(Some(c)) = before {
                let msg = "snr_stmt_reset: rc="@ + signed_decimal(c as int);
                crate::text::lemma_signed_decimal_no_nul(c as int);
                reveal_strlit("snr_stmt_reset: rc=");
                assert forall|i: int| 0 <= i < msg.len() implies msg[i] != '\u{0}' by {
                    if i >= "snr_stmt_reset: rc="@.len() {
                        assert(msg[i] == signed_decimal(c as int)[i - "snr_stmt_reset: rc="@.len()]);
                    }
                }
                crate::error::lemma_truncate_at_nul(msg);
                reveal_strlit("reset falló (rc=");
                reveal_strlit("-1): ");
                reveal_strlit("reset falló (rc=-1): snr_stmt_reset: rc=");
                if let Err(m) = &r {
                    let full = "reset falló (rc=-1): snr_stmt_reset: rc="@ + signed_decimal(c as int);
                    assert(m@ =~= full);
                    assert(m@.take(full.len() as int) =~= full);
                }
            }
        }
        r
    }

    /// Sets every parameter back to NULL.
    pub fn clear_bindings(&mut self) -> (r: Result<(), String>)
        ensures
            r is Ok,
            final(self).state() == old(self).state(),
            final(self).sql() == old(self).sql() && final(self).runs() == old(self).runs(),
            final(self).bound() == Map::<int, BoundValue>::empty(),
    {
        let mut err = ErrorSlot::new();
        let rc = snr_stmt_clear_bindings(Some(&mut self.stmt), &mut err);
        Self::check_code(rc, text("clear_bindings falló (rc="), &err)
    }
}

} // verus!
