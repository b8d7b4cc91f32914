use sqlite_native_runtime::engine::{
    checkpoint_outcome, checkpoint_sql, strip_path_suffix, snr_begin, snr_begin_exclusive, snr_begin_immediate, snr_changes, snr_commit, snr_exec,
    snr_last_insert_rowid, snr_open, snr_open_memory, snr_ping, snr_release, snr_rollback,
    snr_rollback_to, snr_savepoint, snr_set_busy_timeout, snr_sqlite_version,
    snr_wal_autocheckpoint, snr_wal_checkpoint, Handle,
};
use sqlite_native_runtime::statement::{
    snr_bind_int, snr_bind_null, snr_bind_parameter_index, snr_bind_text, snr_column_int,
    snr_prepare, snr_step, snr_stmt_clear_bindings, snr_stmt_reset,
};
use sqlite_native_runtime::error::ErrorSlot;
use sqlite_native_runtime::runtime::{
    NameArg, SNR_CHECKPOINT_FULL, SNR_CHECKPOINT_PASSIVE, SNR_CHECKPOINT_RESTART,
    SNR_CHECKPOINT_TRUNCATE,
};

fn open_anon() -> Handle {
    let mut err = ErrorSlot::new();
    snr_open_memory(NameArg::Absent, &mut err).0.expect("in-memory database")
}

/// The number of rows of `table`.
fn count(h: &Handle, table: &str) -> i64 {
    let mut err = ErrorSlot::new();
    let sql = format!("SELECT COUNT(*) FROM {table}");
    let mut s = snr_prepare(Some(h), Some(&sql), &mut err).unwrap();
    assert_eq!(snr_step(Some(&mut s), &mut err), 1);
    snr_column_int(Some(&s), 0, &mut err)
}

#[test]
fn open_memory_anon_returns_nonnull() {
    let mut err = ErrorSlot::new();
    assert!(snr_open_memory(NameArg::Absent, &mut err).0.is_some());
}

#[test]
fn open_memory_named_returns_nonnull() {
    let mut err = ErrorSlot::new();
    assert!(snr_open_memory(NameArg::Given("test_db_named"), &mut err).0.is_some());
}

#[test]
fn open_memory_invalid_name_returns_null() {
    let mut err = ErrorSlot::new();
    let h = snr_open_memory(NameArg::Given("bad?name"), &mut err).0;
    assert!(h.is_none());
    assert!(err.last_error().unwrap().contains("inválido"));
}

#[test]
fn open_memory_invalid_utf8_name_returns_null() {
    let mut err = ErrorSlot::new();
    assert!(snr_open_memory(NameArg::Unreadable, &mut err).0.is_none());
    assert!(err.last_error().is_some());
}

#[test]
fn open_file_null_path_returns_null() {
    let mut err = ErrorSlot::new();
    assert!(snr_open(None, 0, &mut err).0.is_none());
    assert!(err.last_error().is_some());
}

#[test]
fn open_file_nonexistent_dir_returns_null() {
    let mut err = ErrorSlot::new();
    assert!(snr_open(Some("/no_existe/sub/db.sqlite"), 0, &mut err).0.is_none());
    assert!(err.last_error().unwrap().starts_with("snr_open: "));
}

#[test]
fn ping_valid_handle_returns_1() {
    let h = open_anon();
    let mut err = ErrorSlot::new();
    assert_eq!(snr_ping(Some(&h), &mut err).0, 1);
}

#[test]
fn ping_null_handle_returns_0() {
    let mut err = ErrorSlot::new();
    assert_eq!(snr_ping(None, &mut err).0, 0);
    assert_eq!(err.last_error(), Some("snr_ping: handle nulo"));
}

#[test]
fn sqlite_version_returns_nonnull() {
    let s = snr_sqlite_version();
    assert!(s.starts_with('3'), "SQLite versión esperada 3.x: {s}");
}

#[test]
fn exec_ddl_returns_0() {
    let h = open_anon();
    let mut err = ErrorSlot::new();
    assert_eq!(snr_exec(Some(&h), Some("CREATE TABLE t(x INTEGER)"), &mut err).0, 0);
}

#[test]
fn exec_dml_returns_0() {
    let h = open_anon();
    let mut err = ErrorSlot::new();
    snr_exec(Some(&h), Some("CREATE TABLE t(x INTEGER)"), &mut err).0;
    assert_eq!(snr_exec(Some(&h), Some("INSERT INTO t VALUES(1)"), &mut err).0, 0);
}

#[test]
fn exec_invalid_sql_returns_neg1() {
    let h = open_anon();
    let mut err = ErrorSlot::new();
    assert_eq!(snr_exec(Some(&h), Some("NOT SQL AT ALL"), &mut err).0, -1);
    assert!(err.last_error().is_some());
}

#[test]
fn exec_null_handle_returns_neg1() {
    let mut err = ErrorSlot::new();
    assert_eq!(snr_exec(None, Some("SELECT 1"), &mut err).0, -1);
}

#[test]
fn exec_null_sql_returns_neg1() {
    let h = open_anon();
    let mut err = ErrorSlot::new();
    assert_eq!(snr_exec(Some(&h), None, &mut err).0, -1);
}

#[test]
fn last_insert_rowid_after_insert() {
    let h = open_anon();
    let mut err = ErrorSlot::new();
    snr_exec(Some(&h), Some("CREATE TABLE t(x INTEGER); INSERT INTO t VALUES(42)"), &mut err).0;
    assert_eq!(snr_last_insert_rowid(Some(&h)), 1, "primera inserción debe tener rowid=1");
}

#[test]
fn last_insert_rowid_null_handle_returns_0() {
    assert_eq!(snr_last_insert_rowid(None), 0);
}

#[test]
fn changes_after_insert() {
    let h = open_anon();
    let mut err = ErrorSlot::new();
    snr_exec(Some(&h), Some("CREATE TABLE t(x INTEGER)"), &mut err).0;
    snr_exec(Some(&h), Some("INSERT INTO t VALUES(1)"), &mut err).0;
    assert_eq!(snr_changes(Some(&h)), 1);
}

#[test]
fn changes_null_handle_returns_0() {
    assert_eq!(snr_changes(None), 0);
}

#[test]
fn set_busy_timeout_returns_0() {
    let h = open_anon();
    let mut err = ErrorSlot::new();
    assert_eq!(snr_set_busy_timeout(Some(&h), 5000, &mut err).0, 0);
}

#[test]
fn set_busy_timeout_zero_disables() {
    let h = open_anon();
    let mut err = ErrorSlot::new();
    assert_eq!(snr_set_busy_timeout(Some(&h), 0, &mut err).0, 0);
}

#[test]
fn set_busy_timeout_null_handle_returns_neg1() {
    let mut err = ErrorSlot::new();
    assert_eq!(snr_set_busy_timeout(None, 1000, &mut err).0, -1);
}

#[test]
fn begin_and_commit_returns_0() {
    let h = open_anon();
    let mut err = ErrorSlot::new();
    assert_eq!(snr_begin(Some(&h), &mut err).0, 0);
    assert_eq!(snr_commit(Some(&h), &mut err).0, 0);
}

#[test]
fn begin_immediate_and_commit_returns_0() {
    let h = open_anon();
    let mut err = ErrorSlot::new();
    assert_eq!(snr_begin_immediate(Some(&h), &mut err).0, 0);
    assert_eq!(snr_commit(Some(&h), &mut err).0, 0);
}

#[test]
fn begin_exclusive_and_commit_returns_0() {
    let h = open_anon();
    let mut err = ErrorSlot::new();
    assert_eq!(snr_begin_exclusive(Some(&h), &mut err).0, 0);
    assert_eq!(snr_commit(Some(&h), &mut err).0, 0);
}

#[test]
fn begin_and_rollback_returns_0() {
    let h = open_anon();
    let mut err = ErrorSlot::new();
    assert_eq!(snr_begin(Some(&h), &mut err).0, 0);
    assert_eq!(snr_rollback(Some(&h), &mut err).0, 0);
}

#[test]
fn begin_null_handle_returns_neg1() {
    let mut err = ErrorSlot::new();
    assert_eq!(snr_begin(None, &mut err).0, -1);
    assert_eq!(err.last_error(), Some("snr_begin: handle nulo"));
}

#[test]
fn begin_immediate_null_handle_returns_neg1() {
    let mut err = ErrorSlot::new();
    assert_eq!(snr_begin_immediate(None, &mut err).0, -1);
}

#[test]
fn begin_exclusive_null_handle_returns_neg1() {
    let mut err = ErrorSlot::new();
    assert_eq!(snr_begin_exclusive(None, &mut err).0, -1);
}

#[test]
fn commit_null_handle_returns_neg1() {
    let mut err = ErrorSlot::new();
    assert_eq!(snr_commit(None, &mut err).0, -1);
}

#[test]
fn rollback_null_handle_returns_neg1() {
    let mut err = ErrorSlot::new();
    assert_eq!(snr_rollback(None, &mut err).0, -1);
}

#[test]
fn double_begin_returns_neg1() {
    let h = open_anon();
    let mut err = ErrorSlot::new();
    assert_eq!(snr_begin(Some(&h), &mut err).0, 0);
    assert_eq!(snr_begin(Some(&h), &mut err).0, -1);
    assert!(err.last_error().is_some());
    snr_rollback(Some(&h), &mut err).0;
}

#[test]
fn commit_without_transaction_returns_neg1() {
    let h = open_anon();
    let mut err = ErrorSlot::new();
    assert_eq!(snr_commit(Some(&h), &mut err).0, -1);
    assert!(err.last_error().unwrap().starts_with("snr_commit: "));
}

#[test]
fn rollback_without_transaction_returns_neg1() {
    let h = open_anon();
    let mut err = ErrorSlot::new();
    assert_eq!(snr_rollback(Some(&h), &mut err).0, -1);
    assert!(err.last_error().is_some());
}

#[test]
fn savepoint_and_release_returns_0() {
    let h = open_anon();
    let mut err = ErrorSlot::new();
    assert_eq!(snr_savepoint(Some(&h), Some("sp1"), &mut err).0, 0);
    assert_eq!(snr_release(Some(&h), Some("sp1"), &mut err).0, 0);
}

#[test]
fn savepoint_and_rollback_to_returns_0() {
    let h = open_anon();
    let mut err = ErrorSlot::new();
    assert_eq!(snr_savepoint(Some(&h), Some("sp2"), &mut err).0, 0);
    assert_eq!(snr_rollback_to(Some(&h), Some("sp2"), &mut err).0, 0);
    assert_eq!(snr_release(Some(&h), Some("sp2"), &mut err).0, 0);
}

#[test]
fn savepoint_name_with_double_quotes_escapes_correctly() {
    let h = open_anon();
    let mut err = ErrorSlot::new();
    assert_eq!(snr_savepoint(Some(&h), Some("sp\"injection"), &mut err).0, 0);
    assert_eq!(snr_release(Some(&h), Some("sp\"injection"), &mut err).0, 0);
}

#[test]
fn savepoint_null_name_returns_neg1() {
    let h = open_anon();
    let mut err = ErrorSlot::new();
    assert_eq!(snr_savepoint(Some(&h), None, &mut err).0, -1);
    assert!(err.last_error().is_some());
}

#[test]
fn release_null_name_returns_neg1() {
    let h = open_anon();
    let mut err = ErrorSlot::new();
    assert_eq!(snr_release(Some(&h), None, &mut err).0, -1);
}

#[test]
fn rollback_to_null_name_returns_neg1() {
    let h = open_anon();
    let mut err = ErrorSlot::new();
    assert_eq!(snr_rollback_to(Some(&h), None, &mut err).0, -1);
}

#[test]
fn savepoint_null_handle_returns_neg1() {
    let mut err = ErrorSlot::new();
    assert_eq!(snr_savepoint(None, Some("sp"), &mut err).0, -1);
}

#[test]
fn release_nonexistent_savepoint_returns_neg1() {
    let h = open_anon();
    let mut err = ErrorSlot::new();
    assert_eq!(snr_release(Some(&h), Some("no_existe_sp"), &mut err).0, -1);
    assert!(err.last_error().is_some());
}

#[test]
fn nested_savepoints_work() {
    let h = open_anon();
    let mut err = ErrorSlot::new();
    assert_eq!(snr_savepoint(Some(&h), Some("outer"), &mut err).0, 0);
    assert_eq!(snr_savepoint(Some(&h), Some("inner"), &mut err).0, 0);
    assert_eq!(snr_release(Some(&h), Some("inner"), &mut err).0, 0);
    assert_eq!(snr_release(Some(&h), Some("outer"), &mut err).0, 0);
}

#[test]
fn lifecycle_savepoint_partial_rollback() {
    let h = open_anon();
    let mut err = ErrorSlot::new();
    snr_exec(Some(&h), Some("CREATE TABLE t(v INTEGER)"), &mut err).0;
    snr_exec(Some(&h), Some("INSERT INTO t VALUES(10)"), &mut err).0;
    assert_eq!(snr_savepoint(Some(&h), Some("punto1"), &mut err).0, 0);
    snr_exec(Some(&h), Some("INSERT INTO t VALUES(20)"), &mut err).0;
    assert_eq!(snr_rollback_to(Some(&h), Some("punto1"), &mut err).0, 0);
    assert_eq!(snr_release(Some(&h), Some("punto1"), &mut err).0, 0);
    assert_eq!(count(&h, "t"), 1, "solo el INSERT 10 debe haber sobrevivido");
}

#[test]
fn lifecycle_transaction_rollback() {
    let h = open_anon();
    let mut err = ErrorSlot::new();
    assert_eq!(snr_exec(Some(&h), Some("CREATE TABLE t(v INTEGER)"), &mut err).0, 0);
    assert_eq!(snr_begin(Some(&h), &mut err).0, 0);
    assert_eq!(snr_exec(Some(&h), Some("INSERT INTO t VALUES(1)"), &mut err).0, 0);
    assert_eq!(snr_rollback(Some(&h), &mut err).0, 0);
    assert_eq!(count(&h, "t"), 0);
}

#[test]
fn checkpoint_passive_on_memory_db_returns_0() {
    let h = open_anon();
    let mut err = ErrorSlot::new();
    assert!(snr_wal_checkpoint(Some(&h), None, SNR_CHECKPOINT_PASSIVE, &mut err).0.is_some());
}

#[test]
fn checkpoint_with_out_params_fills_values() {
    let h = open_anon();
    let mut err = ErrorSlot::new();
    let r = snr_wal_checkpoint(Some(&h), None, SNR_CHECKPOINT_PASSIVE, &mut err).0;
    assert_eq!(r, Some((-1, -1)));
}

#[test]
fn checkpoint_null_handle_returns_neg1() {
    let mut err = ErrorSlot::new();
    assert!(snr_wal_checkpoint(None, None, SNR_CHECKPOINT_PASSIVE, &mut err).0.is_none());
    assert!(err.last_error().is_some());
}

#[test]
fn checkpoint_invalid_db_name_returns_neg1() {
    let h = open_anon();
    let mut err = ErrorSlot::new();
    assert!(snr_wal_checkpoint(Some(&h), Some("db_no_existe_xyz"), SNR_CHECKPOINT_PASSIVE, &mut err).0.is_none());
    assert!(err.last_error().is_some());
}

#[test]
fn checkpoint_empty_db_name_uses_main() {
    let h = open_anon();
    let mut err = ErrorSlot::new();
    assert!(snr_wal_checkpoint(Some(&h), Some(""), SNR_CHECKPOINT_PASSIVE, &mut err).0.is_some());
}

#[test]
fn checkpoint_unknown_mode_is_refused() {
    let h = open_anon();
    let mut err = ErrorSlot::new();
    assert!(snr_wal_checkpoint(Some(&h), None, 9, &mut err).0.is_none());
    assert_eq!(err.last_error(), Some("snr_wal_checkpoint: rc=21 n_log=-1 n_ckpt=-1"));
    for m in [SNR_CHECKPOINT_FULL, SNR_CHECKPOINT_RESTART, SNR_CHECKPOINT_TRUNCATE] {
        assert!(snr_wal_checkpoint(Some(&h), Some("main"), m, &mut err).0.is_some());
    }
}

#[test]
fn autocheckpoint_set_1000_returns_0() {
    let h = open_anon();
    let mut err = ErrorSlot::new();
    assert_eq!(snr_wal_autocheckpoint(Some(&h), 1000, &mut err).0, 0);
}

#[test]
fn autocheckpoint_disable_with_0_returns_0() {
    let h = open_anon();
    let mut err = ErrorSlot::new();
    assert_eq!(snr_wal_autocheckpoint(Some(&h), 0, &mut err).0, 0);
    assert_eq!(snr_wal_autocheckpoint(Some(&h), -3, &mut err).0, 0);
}

#[test]
fn autocheckpoint_null_handle_returns_neg1() {
    let mut err = ErrorSlot::new();
    assert_eq!(snr_wal_autocheckpoint(None, 1000, &mut err).0, -1);
    assert!(err.last_error().is_some());
}

#[test]
fn lifecycle_named_parameter_binding() {
    let h = open_anon();
    let mut err = ErrorSlot::new();
    snr_exec(Some(&h), Some("CREATE TABLE t(v INTEGER)"), &mut err).0;
    let mut s = snr_prepare(Some(&h), Some("INSERT INTO t VALUES(:val)"), &mut err).unwrap();
    let idx = snr_bind_parameter_index(Some(&s), Some(":val"), &mut err);
    assert_eq!(idx, 1);
    assert_eq!(snr_bind_int(Some(&mut s), idx, 99, &mut err), 0);
    assert_eq!(snr_step(Some(&mut s), &mut err), 0);
    drop(s);
    assert_eq!(snr_last_insert_rowid(Some(&h)), 1);
    assert_eq!(snr_changes(Some(&h)), 1);
}

#[test]
fn named_parameter_lookup_misses() {
    let h = open_anon();
    let mut err = ErrorSlot::new();
    snr_exec(Some(&h), Some("CREATE TABLE t(v INTEGER)"), &mut err).0;
    let s = snr_prepare(Some(&h), Some("INSERT INTO t VALUES(:val)"), &mut err).unwrap();
    assert_eq!(snr_bind_parameter_index(Some(&s), Some(":nada"), &mut err), 0);
    assert_eq!(snr_bind_parameter_index(Some(&s), None, &mut err), 0);
    assert_eq!(err.last_error(), Some("snr_bind_parameter_index: name nulo"));
    assert_eq!(snr_bind_parameter_index(None, Some(":val"), &mut err), 0);
    assert_eq!(err.last_error(), Some("snr_bind_parameter_index: stmt nulo"));
}

#[test]
fn lifecycle_stmt_reset_and_reuse() {
    let h = open_anon();
    let mut err = ErrorSlot::new();
    snr_exec(Some(&h), Some("CREATE TABLE t(n INTEGER)"), &mut err).0;
    let mut s = snr_prepare(Some(&h), Some("INSERT INTO t VALUES(?)"), &mut err).unwrap();
    for i in 1i64..=5 {
        assert_eq!(snr_bind_int(Some(&mut s), 1, i, &mut err), 0);
        assert_eq!(snr_step(Some(&mut s), &mut err), 0);
        assert_eq!(snr_stmt_reset(Some(&mut s), &mut err), 0);
        assert_eq!(snr_stmt_clear_bindings(Some(&mut s), &mut err), 0);
    }
    drop(s);
    let mut q = snr_prepare(Some(&h), Some("SELECT COUNT(*) FROM t"), &mut err).unwrap();
    assert_eq!(snr_step(Some(&mut q), &mut err), 1);
    assert_eq!(snr_column_int(Some(&q), 0, &mut err), 5);
}

#[test]
fn statement_errors_and_nulls() {
    let h = open_anon();
    let mut err = ErrorSlot::new();
    assert!(snr_prepare(Some(&h), Some("SELEC * FROM nada"), &mut err).is_none());
    assert!(err.last_error().unwrap().starts_with("snr_prepare: "));
    assert!(snr_prepare(None, Some("SELECT 1"), &mut err).is_none());
    assert!(snr_prepare(Some(&h), None, &mut err).is_none());
    assert_eq!(snr_step(None, &mut err), -1);
    assert_eq!(snr_bind_null(None, 1, &mut err), -1);
    assert_eq!(snr_bind_text(None, 1, Some("x"), &mut err), -1);
    assert_eq!(snr_stmt_reset(None, &mut err), -1);
    assert_eq!(snr_stmt_clear_bindings(None, &mut err), -1);
    let mut s = snr_prepare(Some(&h), Some("SELECT ?"), &mut err).unwrap();
    assert_eq!(snr_bind_text(Some(&mut s), 5, Some("x"), &mut err), -1);
    assert_eq!(snr_bind_text(Some(&mut s), 0, Some("x"), &mut err), -1);
    assert_eq!(snr_bind_text(Some(&mut s), -2, None, &mut err), -1);
    assert_eq!(snr_bind_text(Some(&mut s), 1, None, &mut err), 0);
    assert_eq!(snr_stmt_clear_bindings(Some(&mut s), &mut err), 0);
    assert_eq!(snr_step(Some(&mut s), &mut err), 1);
}

#[test]
fn error_cleared_by_successful_operation() {
    let h = open_anon();
    let mut err = ErrorSlot::new();
    assert_eq!(snr_exec(Some(&h), Some("NO SQL"), &mut err).0, -1);
    assert!(err.last_error().is_some());
    assert_eq!(snr_exec(Some(&h), Some("SELECT 1"), &mut err).0, 0);
    assert!(err.last_error().is_none(), "el error debe limpiarse tras operación exitosa");
}

#[test]
fn checkpoint_outcome_reads_busy_and_counts() {
    assert_eq!(checkpoint_outcome(0, 4, 3), Ok((4, 3)));
    assert_eq!(checkpoint_outcome(0, -1, -1), Ok((-1, -1)));
    assert_eq!(checkpoint_outcome(0, 5_000_000_000, 7), Ok((i32::MAX, 7)));
    assert_eq!(
        checkpoint_outcome(1, 12, 8),
        Err("snr_wal_checkpoint: rc=5 n_log=12 n_ckpt=8".to_string())
    );
}

#[test]
fn savepoint_name_with_quote_round_trips() {
    let h = open_anon();
    let mut err = ErrorSlot::new();
    assert_eq!(snr_savepoint(Some(&h), Some("a\"\"b"), &mut err).0, 0);
    assert_eq!(snr_rollback_to(Some(&h), Some("a\"\"b"), &mut err).0, 0);
    assert_eq!(snr_release(Some(&h), Some("a\"\"b"), &mut err).0, 0);
    assert_eq!(snr_release(Some(&h), Some("a\"b"), &mut err).0, -1);
}

#[test]
fn checkpoint_unknown_database_reports_sqlite_code() {
    let h = open_anon();
    let mut err = ErrorSlot::new();
    assert!(snr_wal_checkpoint(Some(&h), Some("db_no_existe_xyz"), SNR_CHECKPOINT_FULL, &mut err).0.is_none());
    assert_eq!(err.last_error(), Some("snr_wal_checkpoint: rc=1 n_log=-1 n_ckpt=-1"));
}

#[test]
fn named_memory_db_is_shared_between_handles() {
    let mut err = ErrorSlot::new();
    let a = snr_open_memory(NameArg::Given("shared_between_handles"), &mut err).0.unwrap();
    assert_eq!(snr_exec(Some(&a), Some("CREATE TABLE IF NOT EXISTS t(v INTEGER)"), &mut err).0, 0);
    assert_eq!(snr_exec(Some(&a), Some("INSERT INTO t VALUES(777)"), &mut err).0, 0);
    let b = snr_open_memory(NameArg::Given("shared_between_handles"), &mut err).0.unwrap();
    let mut s = snr_prepare(Some(&b), Some("SELECT v FROM t LIMIT 1"), &mut err).unwrap();
    assert_eq!(snr_step(Some(&mut s), &mut err), 1);
    assert_eq!(snr_column_int(Some(&s), 0, &mut err), 777);
    let c = snr_open_memory(NameArg::Absent, &mut err).0.unwrap();
    assert_eq!(snr_exec(Some(&c), Some("SELECT v FROM t"), &mut err).0, -1);
}

#[test]
fn checkpoint_sql_names_main_when_no_database_is_given() {
    assert_eq!(checkpoint_sql(None, "PASSIVE"), "PRAGMA main.wal_checkpoint(PASSIVE)");
    assert_eq!(checkpoint_sql(Some(""), "FULL"), "PRAGMA main.wal_checkpoint(FULL)");
    assert_eq!(checkpoint_sql(Some("aux\"x"), "TRUNCATE"), "PRAGMA \"aux\"\"x\".wal_checkpoint(TRUNCATE)");
}

#[test]
fn failed_open_reports_sqlite_message_without_path() {
    assert_eq!(strip_path_suffix("unable to open database file: /a/b.db", "/a/b.db"), "unable to open database file");
    assert_eq!(strip_path_suffix("disk I/O error", "/a/b.db"), "disk I/O error");
    let mut err = ErrorSlot::new();
    assert!(snr_open(Some("/no/such/dir/x.db"), 0, &mut err).0.is_none());
    assert_eq!(err.last_error(), Some("snr_open: unable to open database file"));
}
