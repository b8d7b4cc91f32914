use sqlite_native_runtime::inserter::{drain_into, take_received, Drained, RecvOutcome};
use sqlite_native_runtime::inserter::{after_wake, Next, Wake};
use sqlite_native_runtime::spike::inserter::{Inserter, MqttMsg};
use sqlite_native_runtime::inserter::{record_batch, write_batch};
use sqlite_native_runtime::db::Connection;
use sqlite_native_runtime::inserter::{insert_batch, IngestMsg};
use sqlite_native_runtime::metrics::Metrics;
use sqlite_native_runtime::schema::{ensure, INSERT_SQL};
use sqlite_native_runtime::topic::Priority;

fn open_memory() -> Connection {
    Connection::open(":memory:", ":memory:", 1000).0.expect("abrir db temporal")
}

fn make_msg(id: &str, priority: &str) -> IngestMsg {
    IngestMsg {
        id: id.to_owned(),
        tenant: "acme".into(),
        database_name: "crm".into(),
        entity: "contact".into(),
        operation: "insert".into(),
        raw_topic: format!("db/{priority}/acme/crm/contact/insert"),
        priority: priority.to_owned(),
        schema_name: None,
        payload_json: format!(r#"{{"id":"{id}"}}"#),
        metadata_json: None,
        received_at: "2026-05-26T00:00:00Z".into(),
    }
}

#[test]
fn open_and_exec_create_table() {
    let db = open_memory();
    db.exec("CREATE TABLE t (id INTEGER PRIMARY KEY, v TEXT)").0.unwrap();
}

#[test]
fn begin_commit_roundtrip() {
    let db = open_memory();
    db.exec("CREATE TABLE t (id INTEGER PRIMARY KEY)").0.unwrap();
    db.begin_immediate().0.unwrap();
    db.exec("INSERT INTO t VALUES (1)").0.unwrap();
    db.commit().0.unwrap();
}

#[test]
fn rollback_undoes_insert() {
    let db = open_memory();
    db.exec("CREATE TABLE t (id INTEGER PRIMARY KEY)").0.unwrap();
    db.begin_immediate().0.unwrap();
    db.exec("INSERT INTO t VALUES (42)").0.unwrap();
    db.rollback().0.unwrap();
    let mut stmt = db.prepare("SELECT COUNT(*) FROM t").unwrap();
    let has_row = stmt.step().unwrap();
    assert!(has_row, "COUNT(*) siempre devuelve una fila");
    let mut empty = db.prepare("SELECT id FROM t").unwrap();
    assert!(!empty.step().unwrap(), "el rollback debe deshacer el INSERT");
}

#[test]
fn prepare_bind_step() {
    let db = open_memory();
    db.exec("CREATE TABLE t (id INTEGER, v TEXT)").0.unwrap();
    db.begin_immediate().0.unwrap();
    let mut stmt = db.prepare("INSERT INTO t VALUES (?1, ?2)").unwrap();
    stmt.bind_text(2, "hello").unwrap();
    stmt.bind_null(1).unwrap();
    stmt.step().unwrap();
    drop(stmt);
    db.commit().0.unwrap();
}

#[test]
fn stmt_reuse_via_reset() {
    let db = open_memory();
    db.exec("CREATE TABLE t (v TEXT)").0.unwrap();
    let mut stmt = db.prepare("INSERT INTO t VALUES (?1)").unwrap();
    for word in ["alpha", "beta", "gamma"] {
        db.begin_immediate().0.unwrap();
        stmt.reset().unwrap();
        stmt.clear_bindings().unwrap();
        stmt.bind_text(1, word).unwrap();
        stmt.step().unwrap();
        db.commit().0.unwrap();
    }
}

#[test]
fn wal_checkpoint_noop_on_empty() {
    let db = open_memory();
    db.wal_checkpoint_truncate().0.unwrap();
}

#[test]
fn db_error_messages() {
    let db = open_memory();
    let e = db.exec("NOT SQL").0.unwrap_err();
    assert!(e.starts_with("exec falló (rc=-1) SQL='NOT SQL': "), "{e}");
    let e = db.exec("SELECT 1\0x").0.unwrap_err();
    assert_eq!(e, "SQL contiene byte nulo: nul byte found in provided data at position: 8");
    let e = db.prepare("SELEC").err().unwrap();
    assert!(e.starts_with("prepare falló SQL='SELEC': snr_prepare: "), "{e}");
    let e = db.commit().0.unwrap_err();
    assert!(e.starts_with("COMMIT falló (rc=-1): "), "{e}");
    let mut s = db.prepare("SELECT ?1").unwrap();
    let e = s.bind_text(3, "x").unwrap_err();
    assert!(e.starts_with("bind_text(idx=3) falló (rc=-1): "), "{e}");
    let e = s.bind_text(1, "ñ\0").unwrap_err();
    assert_eq!(e, "valor bind contiene byte nulo: nul byte found in provided data at position: 2");
    let e = Connection::open("/no/such/dir/x.db", "/no/such/dir/x.db", 10).0.err().unwrap();
    assert!(e.starts_with("snr_open('/no/such/dir/x.db') falló: snr_open: "), "{e}");
}

#[test]
fn ensure_is_idempotent() {
    let db = open_memory();
    ensure(&db).0.unwrap();
    ensure(&db).0.unwrap();
}

#[test]
fn insert_sql_is_valid() {
    let db = open_memory();
    ensure(&db).0.unwrap();
    let mut stmt = db.prepare(INSERT_SQL).unwrap();
    stmt.bind_text(1, "id-test").unwrap();
    stmt.bind_text(2, "acme").unwrap();
    stmt.bind_text(3, "crm").unwrap();
    stmt.bind_text(4, "contact").unwrap();
    stmt.bind_text(5, "insert").unwrap();
    stmt.bind_text(6, "db/normal/acme/crm/contact/insert").unwrap();
    stmt.bind_text(7, "normal").unwrap();
    stmt.bind_null(8).unwrap();
    stmt.bind_text(9, r#"{"id":"id-test","data":{}}"#).unwrap();
    stmt.bind_null(10).unwrap();
    stmt.bind_text(11, "2026-05-26T00:00:00Z").unwrap();
    db.begin_immediate().0.unwrap();
    let done = stmt.step().unwrap();
    db.commit().0.unwrap();
    assert!(!done, "INSERT devuelve SQLITE_DONE, no SQLITE_ROW");
}

#[test]
fn duplicate_id_is_ignored() {
    let db = open_memory();
    ensure(&db).0.unwrap();
    let mut stmt = db.prepare(INSERT_SQL).unwrap();
    let mut metrics = Metrics::new();
    let mut batch = vec![make_msg("dup-id", "normal"), make_msg("dup-id", "normal")];
    insert_batch(Priority::Normal, &db, &mut stmt, &mut batch, &mut metrics).0.unwrap();
    assert!(batch.is_empty());
    drop(stmt);
    let mut count = db.prepare("SELECT id FROM ingest_event WHERE id = 'dup-id' LIMIT 1 OFFSET 1").unwrap();
    assert!(!count.step().unwrap(), "solo debe haber una fila");
}

#[test]
fn insert_batch_counts_commits_and_errors() {
    let db = open_memory();
    ensure(&db).0.unwrap();
    let mut stmt = db.prepare(INSERT_SQL).unwrap();
    let mut metrics = Metrics::new();
    let mut batch: Vec<IngestMsg> = (0..20).map(|i| make_msg(&format!("msg-{i}"), "normal")).collect();
    insert_batch(Priority::Normal, &db, &mut stmt, &mut batch, &mut metrics).0.unwrap();
    let s = metrics.snapshot();
    assert_eq!(s.committed_normal, 20);
    assert_eq!(s.batches_normal, 1);
    assert_eq!(s.total_errors(), 0);
    let mut bad = make_msg("bad", "high");
    bad.payload_json = "x\0y".into();
    let mut batch = vec![make_msg("ok-1", "high"), bad];
    let e = insert_batch(Priority::High, &db, &mut stmt, &mut batch, &mut metrics).0.unwrap_err();
    assert!(e.starts_with("bind/step falló: "), "{e}");
    let s = metrics.snapshot();
    assert_eq!(s.committed_high, 0);
    assert_eq!(s.errors_high, 1);
    drop(stmt);
    let mut q = db.prepare("SELECT id FROM ingest_event WHERE id = 'ok-1'").unwrap();
    assert!(!q.step().unwrap(), "el batch fallido no debe dejar filas");
}

#[test]
fn write_batch_then_record_batch() {
    let db = open_memory();
    ensure(&db).0.unwrap();
    let mut stmt = db.prepare(INSERT_SQL).unwrap();
    let mut batch = vec![make_msg("w-1", "low"), make_msg("w-2", "low")];
    assert!(write_batch(&db, &mut stmt, &mut batch).0.is_ok());
    assert!(batch.is_empty());
    let mut metrics = Metrics::new();
    record_batch(&mut metrics, Priority::Low, 2, true);
    record_batch(&mut metrics, Priority::Low, 5, false);
    let s = metrics.snapshot();
    assert_eq!((s.committed_low, s.batches_low, s.errors_low), (2, 1, 1));
    drop(stmt);
    let mut q = db.prepare("SELECT COUNT(*) FROM ingest_event").unwrap();
    assert!(q.step().unwrap());
}

#[test]
fn reset_after_a_failed_step_reports_it() {
    let db = open_memory();
    db.exec("CREATE TABLE t (id INTEGER PRIMARY KEY)").0.unwrap();
    let mut s = db.prepare("INSERT INTO t VALUES (7)").unwrap();
    assert!(!s.step().unwrap());
    s.reset().unwrap();
    let e = s.step().unwrap_err();
    assert!(e.starts_with("step falló (rc=-1): "), "{e}");
    let e = s.reset().unwrap_err();
    assert_eq!(e, "reset falló (rc=-1): snr_stmt_reset: rc=19");
    s.reset().unwrap();
}

#[test]
fn after_wake_collects_what_is_waiting() {
    let (tx, rx) = std::sync::mpsc::sync_channel::<u32>(10);
    for v in [2, 3, 4] {
        tx.send(v).unwrap();
    }
    let mut batch = vec![0];
    assert_eq!(after_wake(&rx, &mut batch, 3, Wake::Message(1)), Next::Write);
    assert_eq!(batch, vec![0, 1, 2]);
    assert_eq!(after_wake(&rx, &mut batch, 10, Wake::Timeout), Next::Wait);
    assert_eq!(after_wake(&rx, &mut batch, 10, Wake::Closed), Next::Finish);
    assert_eq!(batch, vec![0, 1, 2]);
    assert_eq!(after_wake(&rx, &mut batch, 10, Wake::Message(9)), Next::Write);
    assert_eq!(batch, vec![0, 1, 2, 9, 3, 4]);
}

#[test]
fn spike_inserter_writes_and_counts() {
    let mut ins = Inserter::new(":memory:", 50, 20).unwrap();
    assert_eq!((ins.get_batch_size(), ins.get_flush_ms()), (50, 20));
    let batch: Vec<MqttMsg> = (0..3)
        .map(|i| MqttMsg { topic: format!("bench/{i}"), payload: "{}".into(), received_ms: i })
        .collect();
    assert!(ins.insert_batch(&batch).0.is_ok());
    ins.record_batch(batch.len(), true);
    assert_eq!((ins.committed, ins.batches, ins.errors), (3, 1, 0));
    assert!(!ins.should_report());
    ins.record_batch(7, false);
    assert_eq!((ins.committed, ins.batches, ins.errors), (3, 1, 1));
    let n: i64 = ins.conn.query_row("SELECT COUNT(*) FROM mqtt_messages", [], |r| r.get(0)).unwrap();
    assert_eq!(n, 3);
}

#[test]
fn take_received_appends_or_stops() {
    let mut batch = vec![1u32];
    assert_eq!(take_received(&mut batch, RecvOutcome::Got(2)), None);
    assert_eq!(batch, vec![1, 2]);
    assert_eq!(take_received(&mut batch, RecvOutcome::Empty), Some(Drained::Empty));
    assert_eq!(take_received(&mut batch, RecvOutcome::Disconnected), Some(Drained::Closed));
    assert_eq!(batch, vec![1, 2]);
}

#[test]
fn drain_into_stops_at_size_empty_or_closed() {
    let (tx, rx) = std::sync::mpsc::sync_channel::<u32>(10);
    for v in 1..=5 {
        tx.send(v).unwrap();
    }
    let mut batch = vec![0u32];
    assert_eq!(drain_into(&rx, &mut batch, 3), Drained::Full);
    assert_eq!(batch, vec![0, 1, 2]);
    assert_eq!(drain_into(&rx, &mut batch, 10), Drained::Empty);
    assert_eq!(batch, vec![0, 1, 2, 3, 4, 5]);
    drop(tx);
    assert_eq!(drain_into(&rx, &mut batch, 10), Drained::Closed);
    assert_eq!(batch.len(), 6);
}
