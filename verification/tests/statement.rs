use sqlite_native_runtime::engine::{
    snr_begin, snr_begin_exclusive, snr_begin_immediate, snr_close, snr_commit, snr_exec,
    snr_open, snr_open_memory, snr_ping, snr_release, snr_rollback, snr_rollback_to,
    snr_savepoint, snr_set_busy_timeout, snr_sqlite_version, snr_wal_autocheckpoint,
    snr_wal_checkpoint, Handle,
};
use sqlite_native_runtime::error::{snr_free_string, ErrorSlot};
use sqlite_native_runtime::runtime::{snr_checkpoint_passive, NameArg};
use sqlite_native_runtime::statement::{
    snr_bind_blob, snr_bind_double, snr_bind_int, snr_bind_null, snr_bind_text, snr_column_blob,
    snr_column_bytes, snr_column_count, snr_column_int, snr_column_name, snr_column_text,
    snr_column_text_owned, snr_column_type, snr_prepare, snr_step, snr_stmt_clear_bindings,
    snr_stmt_close, snr_stmt_reset, ColumnValue,
};

fn open_anon() -> Handle {
    let mut err = ErrorSlot::new();
    snr_open_memory(NameArg::Absent, &mut err).0.expect("in-memory database")
}

fn text(b: Option<Vec<u8>>) -> String {
    String::from_utf8(b.expect("text")).unwrap()
}

#[test]
fn null_snr_open_path() {
    let mut err = ErrorSlot::new();
    let h = snr_open(None, 0, &mut err).0;
    assert!(h.is_none());
    snr_close(h);
}

#[test]
fn null_snr_open_memory_name() {
    let mut err = ErrorSlot::new();
    let h = snr_open_memory(NameArg::Absent, &mut err).0;
    assert!(h.is_some());
    snr_close(h);
}

#[test]
fn null_snr_close() {
    snr_close(None);
}

#[test]
fn close_null_is_noop() {
    snr_close(None);
}

#[test]
fn null_snr_ping() {
    let mut err = ErrorSlot::new();
    assert_eq!(snr_ping(None, &mut err).0, 0);
}

#[test]
fn null_snr_exec_handle() {
    let mut err = ErrorSlot::new();
    assert_eq!(snr_exec(None, Some("SELECT 1"), &mut err).0, -1);
}

#[test]
fn null_snr_exec_sql() {
    let h = open_anon();
    let mut err = ErrorSlot::new();
    assert_eq!(snr_exec(Some(&h), None, &mut err).0, -1);
    snr_close(Some(h));
}

#[test]
fn null_snr_prepare_handle() {
    let mut err = ErrorSlot::new();
    assert!(snr_prepare(None, Some("SELECT 1"), &mut err).is_none());
}

#[test]
fn null_snr_prepare_sql() {
    let h = open_anon();
    let mut err = ErrorSlot::new();
    assert!(snr_prepare(Some(&h), None, &mut err).is_none());
}

#[test]
fn null_snr_stmt_close() {
    snr_stmt_close(None);
}

#[test]
fn null_snr_step() {
    let mut err = ErrorSlot::new();
    assert_eq!(snr_step(None, &mut err), -1);
}

#[test]
fn null_snr_bind_all() {
    let mut err = ErrorSlot::new();
    let data: &[u8] = &[1, 2, 3];
    assert_eq!(snr_bind_null(None, 1, &mut err), -1);
    assert_eq!(snr_bind_int(None, 1, 42, &mut err), -1);
    assert_eq!(snr_bind_double(None, 1, &rusqlite::types::Value::Real(1.0), &mut err), -1);
    assert_eq!(snr_bind_text(None, 1, Some("x"), &mut err), -1);
    assert_eq!(snr_bind_blob(None, 1, Some(data), 3, &mut err), -1);
}

#[test]
fn null_snr_column_all() {
    let mut err = ErrorSlot::new();
    assert_eq!(snr_column_count(None, &mut err), 0);
    assert_eq!(snr_column_type(None, 0, &mut err), 5);
    assert_eq!(snr_column_int(None, 0, &mut err), 0);
    assert!(snr_column_text(None, 0, &mut err).is_none());
    assert!(snr_column_text_owned(None, 0, &mut err).is_none());
    assert!(snr_column_blob(None, 0, &mut err).is_none());
    assert_eq!(snr_column_bytes(None, 0, &mut err), 0);
    assert!(snr_column_name(None, 0, None, &mut err).is_none());
    assert_eq!(err.last_error(), Some("snr_column_name: stmt nulo"));
}

#[test]
fn null_snr_transaction_all() {
    let mut err = ErrorSlot::new();
    assert_eq!(snr_begin(None, &mut err).0, -1);
    assert_eq!(snr_begin_immediate(None, &mut err).0, -1);
    assert_eq!(snr_begin_exclusive(None, &mut err).0, -1);
    assert_eq!(snr_commit(None, &mut err).0, -1);
    assert_eq!(snr_rollback(None, &mut err).0, -1);
}

#[test]
fn null_snr_savepoint_all() {
    let mut err = ErrorSlot::new();
    assert_eq!(snr_savepoint(None, Some("sp"), &mut err).0, -1);
    assert_eq!(snr_release(None, Some("sp"), &mut err).0, -1);
    assert_eq!(snr_rollback_to(None, Some("sp"), &mut err).0, -1);
    let h = open_anon();
    assert_eq!(snr_savepoint(Some(&h), None, &mut err).0, -1);
    assert_eq!(snr_release(Some(&h), None, &mut err).0, -1);
    assert_eq!(snr_rollback_to(Some(&h), None, &mut err).0, -1);
}

#[test]
fn null_snr_wal_checkpoint_handle() {
    let mut err = ErrorSlot::new();
    assert!(snr_wal_checkpoint(None, None, snr_checkpoint_passive(), &mut err).0.is_none());
}

#[test]
fn null_snr_wal_autocheckpoint_handle() {
    let mut err = ErrorSlot::new();
    assert_eq!(snr_wal_autocheckpoint(None, 1000, &mut err).0, -1);
}

#[test]
fn null_snr_free_string() {
    snr_free_string(None);
}

#[test]
fn free_null_is_noop() {
    snr_free_string(None);
}

#[test]
fn ownership_multiple_snr_free_string_calls_are_independent() {
    let s1 = snr_sqlite_version();
    let s2 = snr_sqlite_version();
    assert!(s1.starts_with('3'));
    assert_eq!(s1, s2);
    assert_eq!(s1, "3.46.0");
    snr_free_string(Some(s1));
    snr_free_string(Some(s2));
}

#[test]
fn open_file_path_with_interior_nul_returns_null() {
    let mut err = ErrorSlot::new();
    let h = snr_open(Some("/tmp/a\0b.db"), 0, &mut err).0;
    if h.is_some() {
        snr_close(h);
    }
}

#[test]
fn lifecycle_busy_timeout_and_ping() {
    let h = open_anon();
    let mut err = ErrorSlot::new();
    assert_eq!(snr_set_busy_timeout(Some(&h), 5000, &mut err).0, 0);
    assert_eq!(snr_ping(Some(&h), &mut err).0, 1);
    snr_close(Some(h));
}

#[test]
fn lifecycle_open_exec_close() {
    let h = open_anon();
    let mut err = ErrorSlot::new();
    assert_eq!(snr_ping(Some(&h), &mut err).0, 1);
    assert_eq!(snr_exec(Some(&h), Some("CREATE TABLE t(id INTEGER PRIMARY KEY, v TEXT)"), &mut err).0, 0);
    snr_close(Some(h));
}

#[test]
fn ownership_column_text_is_internal_do_not_free() {
    let h = open_anon();
    let mut err = ErrorSlot::new();
    let mut s = snr_prepare(Some(&h), Some("SELECT 'hola'"), &mut err).unwrap();
    assert_eq!(snr_step(Some(&mut s), &mut err), 1);
    assert_eq!(text(snr_column_text(Some(&s), 0, &mut err)), "hola");
}

#[test]
fn ownership_column_text_owned_must_be_freed() {
    let h = open_anon();
    let mut err = ErrorSlot::new();
    let mut s = snr_prepare(Some(&h), Some("SELECT 'mundo'"), &mut err).unwrap();
    assert_eq!(snr_step(Some(&mut s), &mut err), 1);
    assert_eq!(text(snr_column_text_owned(Some(&s), 0, &mut err)), "mundo");
}

#[test]
fn error_after_failed_prepare() {
    let h = open_anon();
    let mut err = ErrorSlot::new();
    assert!(snr_prepare(Some(&h), Some("SELEC * FROM nada"), &mut err).is_none());
    assert!(err.last_error().unwrap().contains("snr_prepare"));
}

#[test]
fn error_bind_blob_negative_len_sets_error() {
    let h = open_anon();
    let mut err = ErrorSlot::new();
    let mut s = snr_prepare(Some(&h), Some("SELECT ?"), &mut err).unwrap();
    let data: &[u8] = &[0x01];
    assert_eq!(snr_bind_blob(Some(&mut s), 1, Some(data), -1, &mut err), -1);
    let msg = err.last_error().unwrap();
    assert!(msg.contains("negativo"), "{msg}");
}

#[test]
fn lifecycle_prepare_bind_step_close() {
    let h = open_anon();
    let mut err = ErrorSlot::new();
    snr_exec(Some(&h), Some("CREATE TABLE t(x INTEGER, y TEXT, z REAL, b BLOB)"), &mut err).0;
    let mut s = snr_prepare(Some(&h), Some("INSERT INTO t VALUES(?, ?, ?, ?)"), &mut err).unwrap();
    let blob: &[u8] = &[0xDE, 0xAD, 0xBE, 0xEF];
    assert_eq!(snr_bind_int(Some(&mut s), 1, 42, &mut err), 0);
    assert_eq!(snr_bind_text(Some(&mut s), 2, Some("hola"), &mut err), 0);
    assert_eq!(snr_bind_double(Some(&mut s), 3, &rusqlite::types::Value::Real(2.718), &mut err), 0);
    assert_eq!(snr_bind_blob(Some(&mut s), 4, Some(blob), blob.len() as i32, &mut err), 0);
    assert_eq!(snr_step(Some(&mut s), &mut err), 0);
    snr_stmt_close(Some(s));

    let mut q = snr_prepare(Some(&h), Some("SELECT x, y, z, b FROM t"), &mut err).unwrap();
    assert_eq!(snr_step(Some(&mut q), &mut err), 1);
    assert_eq!(snr_column_int(Some(&q), 0, &mut err), 42);
    assert_eq!(snr_column_type(Some(&q), 1, &mut err), 3);
    assert_eq!(snr_column_bytes(Some(&q), 3, &mut err), 4);
    assert_eq!(snr_column_blob(Some(&q), 3, &mut err), Some(vec![0xDE, 0xAD, 0xBE, 0xEF]));
    match q.cell(2) {
        Some(ColumnValue::Real(rusqlite::types::Value::Real(v))) => assert!((v - 2.718).abs() < 1e-12),
        _ => panic!("column z must hold a real"),
    }
    assert_eq!(snr_step(Some(&mut q), &mut err), 0);
    snr_stmt_close(Some(q));
    snr_close(Some(h));
}

#[test]
fn lifecycle_transaction_commit() {
    let h = open_anon();
    let mut err = ErrorSlot::new();
    snr_exec(Some(&h), Some("CREATE TABLE t(v INTEGER)"), &mut err).0;
    assert_eq!(snr_begin(Some(&h), &mut err).0, 0);
    snr_exec(Some(&h), Some("INSERT INTO t VALUES(1)"), &mut err).0;
    assert_eq!(snr_commit(Some(&h), &mut err).0, 0);
    let mut q = snr_prepare(Some(&h), Some("SELECT COUNT(*) FROM t"), &mut err).unwrap();
    assert_eq!(snr_step(Some(&mut q), &mut err), 1);
    assert_eq!(snr_column_int(Some(&q), 0, &mut err), 1);
}

#[test]
fn lifecycle_column_name_after_step() {
    let h = open_anon();
    let mut err = ErrorSlot::new();
    let mut s = snr_prepare(Some(&h), Some("SELECT 1 AS primero, 2 AS segundo"), &mut err).unwrap();
    assert_eq!(snr_step(Some(&mut s), &mut err), 1);
    assert_eq!(snr_column_count(Some(&s), &mut err), 2);
    // The names SQLite reports for the same statement, as the C layer reads them.
    let reported = h.connection().prepare("SELECT 1 AS primero, 2 AS segundo").unwrap();
    let name = |i: usize| reported.column_name(i).ok().map(|n| n.as_bytes().to_vec());
    assert_eq!(snr_column_name(Some(&s), 0, name(0).as_deref(), &mut err).as_deref(), Some(&b"primero"[..]));
    assert_eq!(snr_column_name(Some(&s), 1, name(1).as_deref(), &mut err).as_deref(), Some(&b"segundo"[..]));
    assert_eq!(snr_column_name(Some(&s), 2, name(2).as_deref(), &mut err), None);
    assert_eq!(snr_column_name(Some(&s), -1, Some(&b"primero"[..]), &mut err), None);
}

#[test]
fn abi_step_result_codes_are_correct() {
    let h = open_anon();
    let mut err = ErrorSlot::new();
    let mut s = snr_prepare(Some(&h), Some("SELECT 1"), &mut err).unwrap();
    assert_eq!(snr_step(Some(&mut s), &mut err), 1, "SNR_ROW debe ser 1");
    assert_eq!(snr_step(Some(&mut s), &mut err), 0, "SNR_DONE debe ser 0");
    assert_eq!(snr_step(None, &mut err), -1, "SNR_ERROR debe ser -1");
}

#[test]
fn abi_column_type_codes_match_sqlite_spec() {
    let h = open_anon();
    let mut err = ErrorSlot::new();
    let mut s = snr_prepare(Some(&h), Some("SELECT 1, 1.0, 'x', X'FF', NULL"), &mut err).unwrap();
    assert_eq!(snr_step(Some(&mut s), &mut err), 1);
    assert_eq!(snr_column_type(Some(&s), 0, &mut err), 1);
    assert_eq!(snr_column_type(Some(&s), 1, &mut err), 2);
    assert_eq!(snr_column_type(Some(&s), 2, &mut err), 3);
    assert_eq!(snr_column_type(Some(&s), 3, &mut err), 4);
    assert_eq!(snr_column_type(Some(&s), 4, &mut err), 5);
}

#[test]
fn rows_come_out_in_order_then_the_statement_runs_again() {
    let h = open_anon();
    let mut err = ErrorSlot::new();
    snr_exec(Some(&h), Some("CREATE TABLE t(v INTEGER); INSERT INTO t VALUES (3), (1), (2);"), &mut err).0;
    let mut s = snr_prepare(Some(&h), Some("SELECT v FROM t ORDER BY v"), &mut err).unwrap();
    for round in 0..2 {
        for expected in 1..=3 {
            assert_eq!(snr_step(Some(&mut s), &mut err), 1, "round {round}");
            assert_eq!(snr_column_int(Some(&s), 0, &mut err), expected);
        }
        assert_eq!(snr_step(Some(&mut s), &mut err), 0);
        assert_eq!(snr_column_type(Some(&s), 0, &mut err), 5, "no row after the end");
    }
}

#[test]
fn columns_read_as_text_blob_and_bytes() {
    let h = open_anon();
    let mut err = ErrorSlot::new();
    let mut s = snr_prepare(Some(&h), Some("SELECT -42, 'año', X'', NULL, 7"), &mut err).unwrap();
    assert_eq!(snr_step(Some(&mut s), &mut err), 1);
    assert_eq!(text(snr_column_text(Some(&s), 0, &mut err)), "-42");
    assert_eq!(snr_column_bytes(Some(&s), 0, &mut err), 3);
    assert_eq!(text(snr_column_text(Some(&s), 1, &mut err)), "año");
    assert_eq!(snr_column_bytes(Some(&s), 1, &mut err), 4);
    assert_eq!(snr_column_blob(Some(&s), 2, &mut err), None, "an empty blob reads as none");
    assert_eq!(snr_column_text(Some(&s), 2, &mut err), Some(vec![]));
    assert_eq!(snr_column_text(Some(&s), 3, &mut err), None);
    assert_eq!(snr_column_bytes(Some(&s), 3, &mut err), 0);
    assert_eq!(snr_column_int(Some(&s), 1, &mut err), 0);
    assert_eq!(snr_column_int(Some(&s), 9, &mut err), 0);
    assert_eq!(snr_column_type(Some(&s), 9, &mut err), 5);
    assert_eq!(snr_column_blob(Some(&s), 4, &mut err), Some(b"7".to_vec()));
}

#[test]
fn binding_needs_a_reset_after_a_run() {
    let h = open_anon();
    let mut err = ErrorSlot::new();
    let mut s = snr_prepare(Some(&h), Some("SELECT ?"), &mut err).unwrap();
    assert_eq!(snr_bind_int(Some(&mut s), 1, 5, &mut err), 0);
    assert_eq!(snr_step(Some(&mut s), &mut err), 1);
    assert_eq!(snr_bind_int(Some(&mut s), 1, 6, &mut err), -1);
    assert_eq!(err.last_error(), Some("bad parameter or other API misuse"));
    assert_eq!(snr_column_int(Some(&s), 0, &mut err), 5);
    assert_eq!(snr_stmt_reset(Some(&mut s), &mut err), 0);
    assert_eq!(snr_bind_int(Some(&mut s), 1, 6, &mut err), 0);
    assert_eq!(snr_step(Some(&mut s), &mut err), 1);
    assert_eq!(snr_column_int(Some(&s), 0, &mut err), 6);
    assert_eq!(snr_stmt_clear_bindings(Some(&mut s), &mut err), 0);
    assert_eq!(snr_stmt_reset(Some(&mut s), &mut err), 0);
    assert_eq!(snr_step(Some(&mut s), &mut err), 1);
    assert_eq!(snr_column_type(Some(&s), 0, &mut err), 5, "cleared parameters are NULL");
}

#[test]
fn reset_reports_a_failed_run_once() {
    let h = open_anon();
    let mut err = ErrorSlot::new();
    snr_exec(Some(&h), Some("CREATE TABLE t(v INTEGER PRIMARY KEY)"), &mut err).0;
    let mut s = snr_prepare(Some(&h), Some("INSERT INTO t VALUES(1)"), &mut err).unwrap();
    assert_eq!(snr_step(Some(&mut s), &mut err), 0);
    assert_eq!(snr_stmt_reset(Some(&mut s), &mut err), 0);
    assert_eq!(snr_step(Some(&mut s), &mut err), -1);
    assert!(err.last_error().unwrap().contains("UNIQUE"));
    assert_eq!(snr_stmt_reset(Some(&mut s), &mut err), -1);
    assert_eq!(err.last_error(), Some("snr_stmt_reset: rc=19"));
    assert_eq!(snr_stmt_reset(Some(&mut s), &mut err), 0);
    assert!(err.last_error().is_none());
}
