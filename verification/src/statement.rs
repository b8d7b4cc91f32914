//! Prepared statements: parameters, stepping through the rows of a result
//! and reading their columns.
//!
//! A statement is run in full at the first step after it was prepared,
//! reset or finished; its rows are kept and handed out one per step, as
//! SQLite's own cursor would hand them out.
use vstd::prelude::*;
use crate::engine::{
    caller_message, error_prefix, fail_sqlite, fail_with, failed_with_prefix, sqlite_error_message,
    sqlite_next_row, sqlite_query, Handle,
};
use crate::error::{truncate_at_nul, ErrorSlot};
use crate::runtime::{
    SNR_DONE, SNR_ERROR, SNR_ROW, SNR_TYPE_BLOB, SNR_TYPE_FLOAT, SNR_TYPE_INTEGER, SNR_TYPE_NULL,
    SNR_TYPE_TEXT,
};
use crate::text::{decimal, push_str, signed_decimal};

verus! {

#[verifier::external_type_specification]
#[verifier::external_body]
pub struct ExSqliteValue(rusqlite::types::Value);

/// One value of a result row.
pub enum ColumnValue {
    /// SQL NULL.
    Null,
    /// An integer.
    Integer(i64),
    /// A floating-point number, kept as rusqlite holds it (`Value::Real`).
    Real(rusqlite::types::Value),
    /// Text, as the bytes SQLite stores.
    Text(Vec<u8>),
    /// A blob.
    Blob(Vec<u8>),
}

/// Where a statement stands.
enum Cursor {
    /// Prepared or reset: the next step runs it.
    Ready,
    /// Run: its rows, and how many of them steps have handed out.
    Rows(Vec<Vec<ColumnValue>>, usize),
    /// Finished (`None`) or failed with a SQLite result code (`Some`).
    Halted(Option<i32>),
}

/// Where a statement stands, as contracts see it.
pub enum StmtState {
    /// Prepared or reset: the next step runs it.
    Ready,
    /// Run: its rows, and how many of them steps have handed out.
    Rows(Seq<Seq<ColumnValue>>, nat),
    /// Finished (`None`) or failed with a SQLite result code (`Some`).
    Halted(Option<i32>),
}

/// A value bound to a parameter, as contracts see it; a parameter with
/// nothing bound holds NULL.
pub enum BoundValue {
    /// SQL NULL.
    Null,
    /// An integer.
    Int(i64),
    /// Text.
    Text(Seq<char>),
    /// A blob.
    Blob(Seq<u8>),
    /// A floating-point number, as rusqlite holds it.
    Real(rusqlite::types::Value),
}

/// A prepared statement of a connection.
pub struct StmtHandle<'c> {
    stmt: rusqlite::Statement<'c>,
    cursor: Cursor,
    prepared: crate::sqlite::Receipt,
    bound: Ghost<Map<int, BoundValue>>,
    runs: Ghost<Seq<Map<int, BoundValue>>>,
}

impl<'c> StmtHandle<'c> {
    /// The SQL the statement was prepared from.
    pub closed spec fn sql(&self) -> Seq<char> {
        match self.prepared.request() {
            crate::sqlite::Request::Sql(q) => q,
            _ => Seq::empty(),
        }
    }

    /// The values bound to its parameters, by (1-based) position.
    pub closed spec fn bound(&self) -> Map<int, BoundValue> {
        self.bound@
    }

    /// The parameters of each run handed to SQLite since it was prepared,
    /// in order.
    pub closed spec fn runs(&self) -> Seq<Map<int, BoundValue>> {
        self.runs@
    }
}

/// Whether `after` is `before` with the same SQL and the same runs.
pub open spec fn same_history(before: StmtHandle, after: StmtHandle) -> bool {
    after.sql() == before.sql() && after.runs() == before.runs()
}

/// The parameters after binding `v` to parameter `idx`: bound where the
/// bind succeeded (`r == 0`), as they were otherwise.
pub open spec fn bound_after(before: Map<int, BoundValue>, idx: i32, v: BoundValue, r: i32) -> Map<int, BoundValue> {
    if r == 0 {
        before.insert(parameter_position(idx) as int, v)
    } else {
        before
    }
}

impl<'c> View for StmtHandle<'c> {
    type V = StmtState;

    closed spec fn view(&self) -> StmtState {
        match self.cursor {
            Cursor::Ready => StmtState::Ready,
            Cursor::Rows(rows, k) => StmtState::Rows(rows@.map_values(|r: Vec<ColumnValue>| r@), k as nat),
            Cursor::Halted(c) => StmtState::Halted(c),
        }
    }
}

/// The row the last step handed out, if the statement stands on one.
pub open spec fn current_row(s: StmtState) -> Option<Seq<ColumnValue>> {
    match s {
        StmtState::Rows(rows, k) => if 1 <= k <= rows.len() {
            Some(rows[k - 1])
        } else {
            None
        },
        _ => None,
    }
}

/// Column `col` (0-based) of the current row, if there is one.
pub open spec fn current_cell(s: StmtState, col: i32) -> Option<ColumnValue> {
    match current_row(s) {
        Some(r) => if 0 <= col < r.len() {
            Some(r[col as int])
        } else {
            None
        },
        None => None,
    }
}

/// The runtime's type code of a cell: INTEGER 1, FLOAT 2, TEXT 3, BLOB 4,
/// NULL 5 (also for a cell that is not there).
pub open spec fn type_code(c: Option<ColumnValue>) -> i32 {
    match c {
        Some(ColumnValue::Integer(_)) => SNR_TYPE_INTEGER,
        Some(ColumnValue::Real(_)) => SNR_TYPE_FLOAT,
        Some(ColumnValue::Text(_)) => SNR_TYPE_TEXT,
        Some(ColumnValue::Blob(_)) => SNR_TYPE_BLOB,
        _ => SNR_TYPE_NULL,
    }
}

/// The integer of a cell: its value for an integer, 0 otherwise.
pub open spec fn integer_of(c: Option<ColumnValue>) -> i64 {
    match c {
        Some(ColumnValue::Integer(v)) => v,
        _ => 0,
    }
}

/// The bytes of ASCII text.
pub open spec fn ascii_bytes(s: Seq<char>) -> Seq<u8> {
    s.map_values(|c: char| c as u8)
}

/// The text of a cell: an integer in decimal, text and blobs as their
/// bytes; none for NULL, a missing cell or a floating-point number.
pub open spec fn text_of(c: Option<ColumnValue>) -> Option<Seq<u8>> {
    match c {
        Some(ColumnValue::Integer(v)) => Some(ascii_bytes(signed_decimal(v as int))),
        Some(ColumnValue::Text(t)) => Some(t@),
        Some(ColumnValue::Blob(b)) => Some(b@),
        _ => None,
    }
}

/// The bytes of a cell read as a blob: those of its text, none when empty.
pub open spec fn blob_of(c: Option<ColumnValue>) -> Option<Seq<u8>> {
    match text_of(c) {
        Some(b) => if b.len() == 0 {
            None
        } else {
            Some(b)
        },
        None => None,
    }
}

/// The number of bytes of a cell's text (0 without text), at most `i32::MAX`.
pub open spec fn byte_count(c: Option<ColumnValue>) -> i32 {
    match text_of(c) {
        Some(b) => if b.len() > i32::MAX {
            i32::MAX
        } else {
            b.len() as i32
        },
        None => 0,
    }
}

/// A byte vector taken by its contents.
pub open spec fn bytes_view(r: Option<Vec<u8>>) -> Option<Seq<u8>> {
    match r {
        Some(v) => Some(v@),
        None => None,
    }
}

/// The message SQLite gives when a parameter is bound while the statement
/// is running or finished, before it is reset.
pub open spec fn misuse_message() -> Seq<char> {
    "bad parameter or other API misuse"@
}

/// What a step does: hands out the next kept row (1) or finishes (0); on
/// a statement that is ready, finished or failed it runs it anew and hands
/// out its first row, finishes, or fails (-1).
pub open spec fn step_outcome(before: StmtState, after: StmtState, r: i32) -> bool {
    match before {
        StmtState::Rows(rows, k) => if k < rows.len() {
            r == SNR_ROW && after == StmtState::Rows(rows, k + 1)
        } else {
            r == SNR_DONE && after == StmtState::Halted(None)
        },
        _ => {
            ||| r == SNR_ROW && (after matches StmtState::Rows(rows, k) && k == 1 && rows.len() >= 1)
            ||| r == SNR_DONE && after == StmtState::Halted(None)
            ||| r == SNR_ERROR && after matches StmtState::Halted(Some(_))
        },
    }
}

/// Stepping a statement that has run hands out its rows in order, one per
/// step, each then readable column by column; after the last row the step
/// finishes and no row is readable any more.
pub proof fn lemma_step_walks_rows(rows: Seq<Seq<ColumnValue>>, k: nat, after: StmtState, r: i32, col: i32)
    requires
        step_outcome(StmtState::Rows(rows, k), after, r),
    ensures
        k < rows.len() ==> r == SNR_ROW && current_row(after) == Some(rows[k as int]),
        k < rows.len() && 0 <= col < rows[k as int].len() ==> current_cell(after, col) == Some(rows[k as int][col as int]),
        k >= rows.len() ==> r == SNR_DONE && current_row(after) is None && current_cell(after, col) is None,
{
}

/// The number of columns of the statement's rows (`rusqlite::Statement::column_count`).
#[verifier::external_body]
fn sqlite_column_count(stmt: &rusqlite::Statement) -> usize {
    stmt.column_count()
}

/// Column `idx` of a row (`rusqlite::Row::get_ref`), copied out of SQLite.
#[verifier::external_body]
fn sqlite_row_value(row: &rusqlite::Row, idx: usize) -> Result<ColumnValue, rusqlite::Error> {
    match row.get_ref(idx) {
        Ok(rusqlite::types::ValueRef::Null) => Ok(ColumnValue::Null),
        Ok(rusqlite::types::ValueRef::Integer(v)) => Ok(ColumnValue::Integer(v)),
        Ok(v @ rusqlite::types::ValueRef::Real(_)) => Ok(ColumnValue::Real(rusqlite::types::Value::from(v))),
        Ok(rusqlite::types::ValueRef::Text(t)) => Ok(ColumnValue::Text(t.to_vec())),
        Ok(rusqlite::types::ValueRef::Blob(b)) => Ok(ColumnValue::Blob(b.to_vec())),
        Err(e) => Err(e),
    }
}

/// The extended SQLite result code an error carries, if it is a SQLite
/// failure (`rusqlite::Error::SqliteFailure`).
#[verifier::external_body]
fn sqlite_error_code(e: &rusqlite::Error) -> Option<i32> {
    match e {
        rusqlite::Error::SqliteFailure(f, _) => Some(f.extended_code),
        _ => None,
    }
}

/// Binds `p` to parameter `idx` (1-based), as the SQL value of its kind
/// (`rusqlite::Statement::raw_bind_parameter`).
#[verifier::external_body]
fn sqlite_bind(stmt: &mut rusqlite::Statement, idx: usize, p: Param) -> Result<(), rusqlite::Error> {
    match p {
        Param::Null => stmt.raw_bind_parameter(idx, rusqlite::types::Null),
        Param::Int(v) => stmt.raw_bind_parameter(idx, v),
        Param::Text(t) => stmt.raw_bind_parameter(idx, t),
        Param::Blob(b) => stmt.raw_bind_parameter(idx, b),
        Param::Value(v) => stmt.raw_bind_parameter(idx, v),
    }
}

/// Sets every parameter back to NULL (`rusqlite::Statement::clear_bindings`).
#[verifier::external_body]
fn sqlite_clear_bindings(stmt: &mut rusqlite::Statement) {
    stmt.clear_bindings()
}

/// The index (1-based) of the parameter called `name`, if the statement has one
/// (`rusqlite::Statement::parameter_index`).
#[verifier::external_body]
fn sqlite_parameter_index(stmt: &rusqlite::Statement, name: &str) -> Result<Option<usize>, rusqlite::Error> {
    stmt.parameter_index(name)
}

/// Whether all `rows` hold the same number of values.
pub open spec fn same_width(rows: Seq<Seq<ColumnValue>>) -> bool {
    forall|i: int, j: int| 0 <= i < rows.len() && 0 <= j < rows.len() ==> #[trigger] rows[i].len() == #[trigger] rows[j].len()
}

/// Runs the statement and reads all its rows, each with one value per
/// result column. At most `usize::MAX` rows are read, more than memory can hold.
fn fetch_rows(stmt: &mut rusqlite::Statement) -> (r: Result<Vec<Vec<ColumnValue>>, rusqlite::Error>)
    ensures
        r matches Ok(rows) ==> same_width(rows@.map_values(|v: Vec<ColumnValue>| v@)),
{
    let n = sqlite_column_count(stmt);
    let mut rows = sqlite_query(stmt);
    let mut out: Vec<Vec<ColumnValue>> = Vec::new();
    while out.len() < usize::MAX
        invariant
            forall|k: int| 0 <= k < out@.len() ==> #[trigger] out@[k]@.len() == n,
        decreases usize::MAX - out.len(),
    {
        match sqlite_next_row(&mut rows) {
            Ok(Some(row)) => {
                let mut vals: Vec<ColumnValue> = Vec::new();
                let mut i: usize = 0;
                while i < n
                    invariant
                        i <= n,
                        vals@.len() == i,
                    decreases n - i,
                {
                    let v = sqlite_row_value(row, i)?;
                    vals.push(v);
                    i = i + 1;
                }
                out.push(vals);
            },
            Ok(None) => {
                break;
            },
            Err(e) => {
                return Err(e);
            },
        }
    }
    proof {
        let m = out@.map_values(|v: Vec<ColumnValue>| v@);
        assert forall|i: int, j: int| 0 <= i < m.len() && 0 <= j < m.len() implies #[trigger] m[i].len() == #[trigger] m[j].len() by {
            assert(m[i] == out@[i]@);
            assert(m[j] == out@[j]@);
        }
    }
    Ok(out)
}

/// The result code a failed run reports: the primary code within SQLite's
/// extended code `ext` (its low byte), or 1 (`SQLITE_ERROR`) for a failure
/// that carries no SQLite code or a zero one.
pub open spec fn failure_code_of(ext: Option<i32>) -> i32 {
    match ext {
        Some(x) => {
            let p = if x >= 0 { (x % 256) as i32 } else { x };
            if p == 0 { 1 } else { p }
        },
        None => 1,
    }
}

/// The primary result code of a failed run (see [`failure_code_of`]), read
/// from the SQLite code the error carries, if any.
pub(crate) fn failure_code(e: &rusqlite::Error) -> (c: i32)
    ensures
        c != 0,
        exists|ext: Option<i32>| c == #[trigger] failure_code_of(ext),
{
    let ext = sqlite_error_code(e);
    let c = match ext {
        Some(x) => {
            let p = if x >= 0 { x % 256 } else { x };
            if p == 0 { 1 } else { p }
        },
        None => 1,
    };
    assert(c == failure_code_of(ext));
    c
}

/// Records SQLite's text for `e` in `err`, as it stands.
fn fail_plain(err: &mut ErrorSlot, e: &rusqlite::Error)
    ensures
        final(err)@ is Some,
{
    let m = sqlite_error_message(e);
    err.set(m.as_str());
}

/// A copy of `v`.
fn copy_bytes(v: &Vec<u8>) -> (r: Vec<u8>)
    ensures
        r@ == v@,
{
    let mut r: Vec<u8> = Vec::new();
    let mut i: usize = 0;
    while i < v.len()
        invariant
            i <= v@.len(),
            r@ == v@.take(i as int),
        decreases v@.len() - i,
    {
        r.push(v[i]);
        i = i + 1;
        assert(r@ =~= v@.take(i as int));
    }
    assert(v@.take(v@.len() as int) =~= v@);
    r
}

/// Appends the ASCII bytes of the decimal representation of `n`.
fn push_decimal_bytes(out: &mut Vec<u8>, n: u64)
    ensures
        final(out)@ == old(out)@ + ascii_bytes(decimal(n as nat)),
    decreases n,
{
    if n >= 10 {
        push_decimal_bytes(out, n / 10);
    }
    let d: u8 = (n % 10) as u8;
    out.push(48u8 + d);
    proof {
        let c = crate::text::digit_char((n % 10) as nat);
        assert(c as u8 == 48u8 + d);
        if n >= 10 {
            assert(decimal(n as nat) == decimal((n / 10) as nat).push(c));
            assert(ascii_bytes(decimal(n as nat)) =~= ascii_bytes(decimal((n / 10) as nat)).push(c as u8));
        } else {
            assert(decimal(n as nat) == seq![c]);
            assert(ascii_bytes(decimal(n as nat)) =~= seq![c as u8]);
        }
    }
}

/// The ASCII bytes of `v` in decimal.
fn signed_bytes(v: i64) -> (r: Vec<u8>)
    ensures
        r@ == ascii_bytes(signed_decimal(v as int)),
{
    let mut out: Vec<u8> = Vec::new();
    if v < 0 {
        out.push(45u8);
        let m: u64 = if v == i64::MIN { 9223372036854775808u64 } else { (0i64 - v) as u64 };
        push_decimal_bytes(&mut out, m);
        assert(ascii_bytes(seq!['-'] + decimal((-v) as nat)) =~= seq![45u8] + ascii_bytes(decimal((-v) as nat)));
    } else {
        push_decimal_bytes(&mut out, v as u64);
    }
    assert(out@ =~= ascii_bytes(signed_decimal(v as int)));
    out
}

/// The text of a cell (see [`text_of`]).
fn cell_text(c: Option<&ColumnValue>) -> (r: Option<Vec<u8>>)
    ensures
        bytes_view(r) == text_of(
            match c {
                Some(v) => Some(*v),
                None => None,
            },
        ),
{
    match c {
        Some(ColumnValue::Integer(v)) => Some(signed_bytes(*v)),
        Some(ColumnValue::Text(t)) => Some(copy_bytes(t)),
        Some(ColumnValue::Blob(b)) => Some(copy_bytes(b)),
        _ => None,
    }
}

impl<'c> StmtHandle<'c> {
    /// Column `col` (0-based) of the row the last step handed out.
    pub fn cell(&self, col: i32) -> (r: Option<&ColumnValue>)
        ensures
            match r {
                Some(v) => Some(*v),
                None => None::<ColumnValue>,
            } == current_cell(self@, col),
    {
        match &self.cursor {
            Cursor::Rows(rows, k) => {
                if *k >= 1 && *k <= rows.len() {
                    let row = &rows[*k - 1];
                    if col >= 0 && (col as usize) < row.len() {
                        Some(&row[col as usize])
                    } else {
                        None
                    }
                } else {
                    None
                }
            },
            _ => None,
        }
    }

    /// Whether parameters may be bound now: only before the statement runs.
    fn is_ready(&self) -> (b: bool)
        ensures
            b == (self@ is Ready),
    {
        match &self.cursor {
            Cursor::Ready => true,
            _ => false,
        }
    }

    /// Steps the statement (see [`step_outcome`]); a failure leaves SQLite's
    /// message in `err`.
    pub fn step(&mut self, err: &mut ErrorSlot) -> (r: i32)
        ensures
            step_outcome(old(self)@, final(self)@, r),
            final(self).sql() == old(self).sql(),
            final(self).bound() == old(self).bound(),
            old(self)@ is Rows ==> final(self).runs() == old(self).runs(),
            !(old(self)@ is Rows) ==> final(self).runs() == old(self).runs().push(old(self).bound()),
            r != SNR_ERROR <==> final(err)@ is None,
            !(old(self)@ is Rows) ==> (final(self)@ matches StmtState::Rows(rows, _) ==> same_width(rows)),
    {
        err.clear();
        let mut cur = Cursor::Ready;
        std::mem::swap(&mut cur, &mut self.cursor);
        match cur {
            Cursor::Rows(rows, k) => {
                if k < rows.len() {
                    self.cursor = Cursor::Rows(rows, k + 1);
                    SNR_ROW
                } else {
                    self.cursor = Cursor::Halted(None);
                    SNR_DONE
                }
            },
            _ => {
                self.runs = Ghost(self.runs@.push(self.bound@));
                match fetch_rows(&mut self.stmt) {
                Ok(rows) => {
                    if rows.len() > 0 {
                        self.cursor = Cursor::Rows(rows, 1);
                        SNR_ROW
                    } else {
                        self.cursor = Cursor::Halted(None);
                        SNR_DONE
                    }
                },
                Err(e) => {
                    let code = failure_code(&e);
                    fail_plain(err, &e);
                    self.cursor = Cursor::Halted(Some(code));
                    SNR_ERROR
                },
                }
            },
        }
    }

    /// Makes the statement ready to run again, keeping its parameters: 0, or
    /// -1 with `snr_stmt_reset: rc=N` when its last run failed with code N.
    pub fn reset(&mut self, err: &mut ErrorSlot) -> (r: i32)
        ensures
            final(self)@ is Ready,
            same_history(*old(self), *final(self)),
            final(self).bound() == old(self).bound(),
            old(self)@ matches StmtState::Halted(Some(c)) ==> r == -1 && final(err)@ == Some(
                truncate_at_nul("snr_stmt_reset: rc="@ + signed_decimal(c as int)),
            ),
            !(old(self)@ matches StmtState::Halted(Some(_))) ==> r == 0 && final(err)@ is None,
    {
        err.clear();
        let mut cur = Cursor::Ready;
        std::mem::swap(&mut cur, &mut self.cursor);
        match cur {
            Cursor::Halted(Some(c)) => {
                let mut m = String::new();
                push_str(&mut m, "snr_stmt_reset: rc=");
                crate::text::push_signed(&mut m, c as i64);
                err.set(m.as_str());
                -1
            },
            _ => 0,
        }
    }
}


/// Compiles `sql`; failures record `snr_prepare: …`. The new statement is
/// ready to run.
pub fn snr_prepare<'c>(handle: Option<&'c Handle>, sql: Option<&str>, err: &mut ErrorSlot) -> (s: Option<StmtHandle<'c>>)
    ensures
        handle is None ==> s is None && final(err)@ == Some(
            truncate_at_nul(caller_message("snr_prepare"@, "handle nulo"@)),
        ),
        handle is Some && sql is None ==> s is None && final(err)@ == Some(
            truncate_at_nul(caller_message("snr_prepare"@, "sql es nulo"@)),
        ),
        s is Some <==> final(err)@ is None,
        s is None ==> failed_with_prefix(final(err)@, error_prefix("snr_prepare"@)),
        s matches Some(st) ==> st@ is Ready && st.sql() == sql->Some_0@ && st.bound() == Map::<int, BoundValue>::empty()
            && st.runs() == Seq::<Map<int, BoundValue>>::empty(),
{
    err.clear();
    let h = match handle {
        Some(h) => h,
        None => {
            fail_with(err, "snr_prepare", "handle nulo");
            return None;
        },
    };
    let q = match sql {
        Some(q) => q,
        None => {
            fail_with(err, "snr_prepare", "sql es nulo");
            return None;
        },
    };
    let (prepared, ran) = crate::sqlite::prepare(h.connection(), q);
    match prepared {
        Ok(stmt) => Some(
            StmtHandle { stmt, cursor: Cursor::Ready, prepared: ran, bound: Ghost(Map::empty()), runs: Ghost(Seq::empty()) },
        ),
        Err(e) => {
            fail_sqlite(err, "snr_prepare", &e);
            None
        },
    }
}

/// Finishes a statement and frees it.
pub fn snr_stmt_close(stmt: Option<StmtHandle>) {
    match stmt {
        Some(_) => {},
        None => {},
    }
}

/// The parameter index SQLite receives for the runtime's `idx`: indexes
/// below 1 become 0, which SQLite refuses as out of range.
pub open spec fn parameter_position(idx: i32) -> nat {
    if idx < 0 { 0 } else { idx as nat }
}

fn position(idx: i32) -> (p: usize)
    ensures
        p as nat == parameter_position(idx),
{
    if idx < 0 { 0 } else { idx as usize }
}

/// What every bind promises of a present statement: its state is kept, and
/// one that has run (or failed) since it was last reset refuses the value.
pub open spec fn bind_outcome(before: StmtState, after: StmtState, r: i32, e: Option<Seq<char>>) -> bool {
    &&& after == before
    &&& !(before is Ready) ==> r == -1 && e == Some(truncate_at_nul(misuse_message()))
}

/// The value of a parameter to bind.
enum Param<'a> {
    Null,
    Int(i64),
    Text(&'a str),
    Blob(&'a [u8]),
    Value(&'a rusqlite::types::Value),
}

/// The value `p` binds.
spec fn param_value(p: Param) -> BoundValue {
    match p {
        Param::Null => BoundValue::Null,
        Param::Int(v) => BoundValue::Int(v),
        Param::Text(t) => BoundValue::Text(t@),
        Param::Blob(b) => BoundValue::Blob(b@),
        Param::Value(v) => BoundValue::Real(*v),
    }
}

/// Binds `p` to parameter `idx` of a present statement.
fn bind_param(s: &mut StmtHandle, idx: i32, p: Param, err: &mut ErrorSlot) -> (r: i32)
    ensures
        bind_outcome(old(s)@, final(s)@, r, final(err)@),
        same_history(*old(s), *final(s)),
        final(s).bound() == bound_after(old(s).bound(), idx, param_value(p), r),
        r == 0 || r == -1,
        r == 0 <==> final(err)@ is None,
{
    err.clear();
    if !s.is_ready() {
        err.set("bad parameter or other API misuse");
        return -1;
    }
    let ghost v = param_value(p);
    match sqlite_bind(&mut s.stmt, position(idx), p) {
        Ok(()) => {
            s.bound = Ghost(s.bound@.insert(parameter_position(idx) as int, v));
            0
        },
        Err(e) => {
            fail_plain(err, &e);
            -1
        },
    }
}

/// Binds NULL to parameter `idx` (1-based): 0 on success, -1 on failure.
pub fn snr_bind_null(stmt: Option<&mut StmtHandle>, idx: i32, err: &mut ErrorSlot) -> (r: i32)
    ensures
        stmt is None ==> r == -1 && final(err)@ == Some(truncate_at_nul("snr_bind_null: stmt nulo"@)),
        stmt matches Some(s) ==> bind_outcome(s@, final(s)@, r, final(err)@),
        stmt matches Some(s) ==> same_history(*s, *final(s)) && final(s).bound() == bound_after(
            s.bound(),
            idx,
            BoundValue::Null,
            r,
        ),
        r == 0 || r == -1,
        r == 0 <==> final(err)@ is None,
{
    match stmt {
        Some(s) => bind_param(s, idx, Param::Null, err),
        None => {
            err.set("snr_bind_null: stmt nulo");
            -1
        },
    }
}

/// Binds the integer `val` to parameter `idx` (1-based): 0 on success, -1 on failure.
pub fn snr_bind_int(stmt: Option<&mut StmtHandle>, idx: i32, val: i64, err: &mut ErrorSlot) -> (r: i32)
    ensures
        stmt is None ==> r == -1 && final(err)@ == Some(truncate_at_nul("snr_bind_int: stmt nulo"@)),
        stmt matches Some(s) ==> bind_outcome(s@, final(s)@, r, final(err)@),
        stmt matches Some(s) ==> same_history(*s, *final(s)) && final(s).bound() == bound_after(
            s.bound(),
            idx,
            BoundValue::Int(val),
            r,
        ),
        r == 0 || r == -1,
        r == 0 <==> final(err)@ is None,
{
    match stmt {
        Some(s) => bind_param(s, idx, Param::Int(val), err),
        None => {
            err.set("snr_bind_int: stmt nulo");
            -1
        },
    }
}

/// Binds a floating-point number, given as rusqlite's `Value::Real`, to
/// parameter `idx` (1-based): 0 on success, -1 on failure.
pub fn snr_bind_double(stmt: Option<&mut StmtHandle>, idx: i32, val: &rusqlite::types::Value, err: &mut ErrorSlot) -> (r: i32)
    ensures
        stmt is None ==> r == -1 && final(err)@ == Some(truncate_at_nul("snr_bind_double: stmt nulo"@)),
        stmt matches Some(s) ==> bind_outcome(s@, final(s)@, r, final(err)@),
        stmt matches Some(s) ==> same_history(*s, *final(s)) && final(s).bound() == bound_after(
            s.bound(),
            idx,
            BoundValue::Real(*val),
            r,
        ),
        r == 0 || r == -1,
        r == 0 <==> final(err)@ is None,
{
    match stmt {
        Some(s) => bind_param(s, idx, Param::Value(val), err),
        None => {
            err.set("snr_bind_double: stmt nulo");
            -1
        },
    }
}

/// Binds the text `val` to parameter `idx` (1-based); an absent value binds
/// NULL. 0 on success, -1 on failure.
pub fn snr_bind_text(stmt: Option<&mut StmtHandle>, idx: i32, val: Option<&str>, err: &mut ErrorSlot) -> (r: i32)
    ensures
        val is Some && stmt is None ==> r == -1 && final(err)@ == Some(truncate_at_nul("snr_bind_text: stmt nulo"@)),
        val is None && stmt is None ==> r == -1 && final(err)@ == Some(truncate_at_nul("snr_bind_null: stmt nulo"@)),
        stmt matches Some(s) ==> bind_outcome(s@, final(s)@, r, final(err)@),
        stmt matches Some(s) ==> same_history(*s, *final(s)) && final(s).bound() == bound_after(
            s.bound(),
            idx,
            match val {
                Some(v) => BoundValue::Text(v@),
                None => BoundValue::Null,
            },
            r,
        ),
        r == 0 || r == -1,
        r == 0 <==> final(err)@ is None,
{
    match val {
        None => snr_bind_null(stmt, idx, err),
        Some(v) => match stmt {
            Some(s) => bind_param(s, idx, Param::Text(v), err),
            None => {
                err.set("snr_bind_text: stmt nulo");
                -1
            },
        },
    }
}

/// Binds the first `len` bytes of `data` as a blob to parameter `idx`
/// (1-based); absent data binds NULL, and a negative length is refused.
/// 0 on success, -1 on failure.
pub fn snr_bind_blob(stmt: Option<&mut StmtHandle>, idx: i32, data: Option<&[u8]>, len: i32, err: &mut ErrorSlot) -> (r: i32)
    requires
        len >= 0 ==> (data matches Some(d) ==> d@.len() == len),
    ensures
        data is None && stmt is None ==> r == -1 && final(err)@ == Some(truncate_at_nul("snr_bind_null: stmt nulo"@)),
        data is Some && len < 0 ==> r == -1 && final(err)@ == Some(
            truncate_at_nul("snr_bind_blob: len negativo no permitido"@),
        ),
        data is Some && len >= 0 && stmt is None ==> r == -1 && final(err)@ == Some(
            truncate_at_nul("snr_bind_blob: stmt nulo"@),
        ),
        stmt matches Some(s) ==> final(s)@ == s@,
        data is None || len >= 0 ==> (stmt matches Some(s) ==> bind_outcome(s@, final(s)@, r, final(err)@)),
        stmt matches Some(s) ==> same_history(*s, *final(s)),
        data is Some && len < 0 ==> (stmt matches Some(s) ==> final(s).bound() == s.bound()),
        data is None || len >= 0 ==> (stmt matches Some(s) ==> final(s).bound() == bound_after(
            s.bound(),
            idx,
            match data {
                Some(d) => BoundValue::Blob(d@),
                None => BoundValue::Null,
            },
            r,
        )),
        r == 0 || r == -1,
        r == 0 <==> final(err)@ is None,
{
    let d = match data {
        None => {
            return snr_bind_null(stmt, idx, err);
        },
        Some(d) => d,
    };
    if len < 0 {
        err.set("snr_bind_blob: len negativo no permitido");
        return -1;
    }
    match stmt {
        Some(s) => bind_param(s, idx, Param::Blob(d), err),
        None => {
            err.set("snr_bind_blob: stmt nulo");
            -1
        },
    }
}

/// The index (1-based) of the parameter called `name`; 0 where there is no
/// such parameter, no name or no statement.
pub fn snr_bind_parameter_index(stmt: Option<&StmtHandle>, name: Option<&str>, err: &mut ErrorSlot) -> (r: i32)
    ensures
        name is None ==> r == 0 && final(err)@ == Some(truncate_at_nul("snr_bind_parameter_index: name nulo"@)),
        name is Some && stmt is None ==> r == 0 && final(err)@ == Some(
            truncate_at_nul("snr_bind_parameter_index: stmt nulo"@),
        ),
        name is Some && stmt is Some ==> final(err)@ is None,
        r >= 0,
{
    err.clear();
    let n = match name {
        Some(n) => n,
        None => {
            err.set("snr_bind_parameter_index: name nulo");
            return 0;
        },
    };
    let s = match stmt {
        Some(s) => s,
        None => {
            err.set("snr_bind_parameter_index: stmt nulo");
            return 0;
        },
    };
    match sqlite_parameter_index(&s.stmt, n) {
        Ok(Some(i)) => if i > i32::MAX as usize { 0 } else { i as i32 },
        _ => 0,
    }
}

/// Steps the statement (see [`step_outcome`]): `SNR_ROW` (1) with a row to
/// read, `SNR_DONE` (0) when it finished, `SNR_ERROR` (-1) on failure with
/// SQLite's message in `err`.
pub fn snr_step(stmt: Option<&mut StmtHandle>, err: &mut ErrorSlot) -> (r: i32)
    ensures
        stmt is None ==> r == SNR_ERROR && final(err)@ == Some(truncate_at_nul("snr_step: stmt nulo"@)),
        stmt matches Some(s) ==> step_outcome(s@, final(s)@, r),
        r != SNR_ERROR <==> final(err)@ is None,
        stmt matches Some(s) ==> final(s).sql() == s.sql() && final(s).bound() == s.bound(),
        stmt matches Some(s) ==> (s@ is Rows ==> final(s).runs() == s.runs()),
        stmt matches Some(s) ==> (!(s@ is Rows) ==> final(s).runs() == s.runs().push(s.bound())),
{
    match stmt {
        Some(s) => s.step(err),
        None => {
            err.set("snr_step: stmt nulo");
            SNR_ERROR
        },
    }
}

/// Makes the statement ready to run again, keeping its parameters: 0, or -1
/// when its last run failed (`snr_stmt_reset: rc=N`) or there is none.
pub fn snr_stmt_reset(stmt: Option<&mut StmtHandle>, err: &mut ErrorSlot) -> (r: i32)
    ensures
        stmt is None ==> r == -1 && final(err)@ == Some(truncate_at_nul("snr_stmt_reset: stmt nulo"@)),
        stmt matches Some(s) ==> final(s)@ is Ready,
        stmt matches Some(s) ==> same_history(*s, *final(s)) && final(s).bound() == s.bound(),
        stmt matches Some(s) ==> (s@ matches StmtState::Halted(Some(c)) ==> r == -1 && final(err)@ == Some(
            truncate_at_nul("snr_stmt_reset: rc="@ + signed_decimal(c as int)),
        )),
        stmt matches Some(s) ==> (!(s@ matches StmtState::Halted(Some(_))) ==> r == 0 && final(err)@ is None),
{
    match stmt {
        Some(s) => s.reset(err),
        None => {
            err.set("snr_stmt_reset: stmt nulo");
            -1
        },
    }
}

/// Sets every parameter back to NULL: 0, or -1 without a statement.
pub fn snr_stmt_clear_bindings(stmt: Option<&mut StmtHandle>, err: &mut ErrorSlot) -> (r: i32)
    ensures
        stmt is None ==> r == -1 && final(err)@ == Some(truncate_at_nul("snr_stmt_clear_bindings: stmt nulo"@)),
        stmt matches Some(s) ==> r == 0 && final(err)@ is None && final(s)@ == s@,
        stmt matches Some(s) ==> same_history(*s, *final(s)) && final(s).bound() == Map::<int, BoundValue>::empty(),
{
    err.clear();
    match stmt {
        Some(s) => {
            sqlite_clear_bindings(&mut s.stmt);
            s.bound = Ghost(Map::empty());
            0
        },
        None => {
            err.set("snr_stmt_clear_bindings: stmt nulo");
            -1
        },
    }
}

/// The number of columns of the statement's result; 0 without a statement.
pub fn snr_column_count(stmt: Option<&StmtHandle>, err: &mut ErrorSlot) -> (r: i32)
    ensures
        stmt is None ==> r == 0 && final(err)@ == Some(truncate_at_nul("snr_column_count: stmt nulo"@)),
        stmt is Some ==> final(err)@ is None,
        r >= 0,
{
    err.clear();
    match stmt {
        Some(s) => {
            let n = sqlite_column_count(&s.stmt);
            if n > i32::MAX as usize { i32::MAX } else { n as i32 }
        },
        None => {
            err.set("snr_column_count: stmt nulo");
            0
        },
    }
}

/// The type code of column `col` (0-based) of the current row (see
/// [`type_code`]); NULL without a statement or a row.
pub fn snr_column_type(stmt: Option<&StmtHandle>, col: i32, err: &mut ErrorSlot) -> (r: i32)
    ensures
        stmt is None ==> r == SNR_TYPE_NULL && final(err)@ == Some(truncate_at_nul("snr_column_type: stmt nulo"@)),
        stmt matches Some(s) ==> r == type_code(current_cell(s@, col)) && final(err)@ is None,
{
    err.clear();
    match stmt {
        Some(s) => match s.cell(col) {
            Some(ColumnValue::Integer(_)) => SNR_TYPE_INTEGER,
            Some(ColumnValue::Real(_)) => SNR_TYPE_FLOAT,
            Some(ColumnValue::Text(_)) => SNR_TYPE_TEXT,
            Some(ColumnValue::Blob(_)) => SNR_TYPE_BLOB,
            _ => SNR_TYPE_NULL,
        },
        None => {
            err.set("snr_column_type: stmt nulo");
            SNR_TYPE_NULL
        },
    }
}

/// Column `col` (0-based) of the current row as an integer (see [`integer_of`]).
pub fn snr_column_int(stmt: Option<&StmtHandle>, col: i32, err: &mut ErrorSlot) -> (r: i64)
    ensures
        stmt is None ==> r == 0 && final(err)@ == Some(truncate_at_nul("snr_column_int: stmt nulo"@)),
        stmt matches Some(s) ==> r == integer_of(current_cell(s@, col)) && final(err)@ is None,
{
    err.clear();
    match stmt {
        Some(s) => match s.cell(col) {
            Some(ColumnValue::Integer(v)) => *v,
            _ => 0,
        },
        None => {
            err.set("snr_column_int: stmt nulo");
            0
        },
    }
}

/// Column `col` (0-based) of the current row as text (see [`text_of`]).
pub fn snr_column_text(stmt: Option<&StmtHandle>, col: i32, err: &mut ErrorSlot) -> (r: Option<Vec<u8>>)
    ensures
        stmt is None ==> r is None && final(err)@ == Some(truncate_at_nul("snr_column_text: stmt nulo"@)),
        stmt matches Some(s) ==> bytes_view(r) == text_of(current_cell(s@, col)) && final(err)@ is None,
{
    err.clear();
    match stmt {
        Some(s) => cell_text(s.cell(col)),
        None => {
            err.set("snr_column_text: stmt nulo");
            None
        },
    }
}

/// Column `col` (0-based) of the current row as text the caller keeps (see
/// [`text_of`]).
pub fn snr_column_text_owned(stmt: Option<&StmtHandle>, col: i32, err: &mut ErrorSlot) -> (r: Option<Vec<u8>>)
    ensures
        stmt is None ==> r is None && final(err)@ == Some(truncate_at_nul("snr_column_text_owned: stmt nulo"@)),
        stmt matches Some(s) ==> bytes_view(r) == text_of(current_cell(s@, col)) && final(err)@ is None,
{
    err.clear();
    match stmt {
        Some(s) => cell_text(s.cell(col)),
        None => {
            err.set("snr_column_text_owned: stmt nulo");
            None
        },
    }
}

/// Column `col` (0-based) of the current row as a blob (see [`blob_of`]).
pub fn snr_column_blob(stmt: Option<&StmtHandle>, col: i32, err: &mut ErrorSlot) -> (r: Option<Vec<u8>>)
    ensures
        stmt is None ==> r is None && final(err)@ == Some(truncate_at_nul("snr_column_blob: stmt nulo"@)),
        stmt matches Some(s) ==> bytes_view(r) == blob_of(current_cell(s@, col)) && final(err)@ is None,
{
    err.clear();
    match stmt {
        Some(s) => match cell_text(s.cell(col)) {
            Some(b) => if b.len() == 0 { None } else { Some(b) },
            None => None,
        },
        None => {
            err.set("snr_column_blob: stmt nulo");
            None
        },
    }
}

/// The number of bytes of column `col` (0-based) of the current row read as
/// text or blob (see [`byte_count`]).
pub fn snr_column_bytes(stmt: Option<&StmtHandle>, col: i32, err: &mut ErrorSlot) -> (r: i32)
    ensures
        stmt is None ==> r == 0 && final(err)@ == Some(truncate_at_nul("snr_column_bytes: stmt nulo"@)),
        stmt matches Some(s) ==> r == byte_count(current_cell(s@, col)) && final(err)@ is None,
{
    err.clear();
    match stmt {
        Some(s) => match cell_text(s.cell(col)) {
            Some(b) => if b.len() > i32::MAX as usize { i32::MAX } else { b.len() as i32 },
            None => 0,
        },
        None => {
            err.set("snr_column_bytes: stmt nulo");
            0
        },
    }
}

/// A copy of `b`.
fn copy_slice(b: &[u8]) -> (r: Vec<u8>)
    ensures
        r@ == b@,
{
    let mut r: Vec<u8> = Vec::new();
    let mut i: usize = 0;
    while i < b.len()
        invariant
            i <= b@.len(),
            r@ == b@.take(i as int),
        decreases b@.len() - i,
    {
        r.push(b[i]);
        i = i + 1;
        assert(r@ =~= b@.take(i as int));
    }
    assert(b@.take(b@.len() as int) =~= b@);
    r
}

/// The name of result column `col` (0-based) of the statement, given `name`:
/// the bytes SQLite reports as that column's name (its C interface's
/// `sqlite3_column_name`), none past the last column. The name is those
/// bytes as they are, UTF-8 or not; none for a negative column or without a
/// statement. The caller reads `name` through SQLite's C interface, since
/// rusqlite's `Statement::column_name` unwinds on a name that is not UTF-8.
pub fn snr_column_name(stmt: Option<&StmtHandle>, col: i32, name: Option<&[u8]>, err: &mut ErrorSlot) -> (r: Option<Vec<u8>>)
    ensures
        stmt is None ==> r is None && final(err)@ == Some(truncate_at_nul("snr_column_name: stmt nulo"@)),
        stmt is Some ==> final(err)@ is None,
        col < 0 ==> r is None,
        stmt is Some && col >= 0 ==> bytes_view(r) == match name {
            Some(b) => Some(b@),
            None => None::<Seq<u8>>,
        },
{
    err.clear();
    match stmt {
        Some(_) => {
            if col < 0 {
                return None;
            }
            match name {
                Some(b) => Some(copy_slice(b)),
                None => None,
            }
        },
        None => {
            err.set("snr_column_name: stmt nulo");
            None
        },
    }
}

} // verus!
