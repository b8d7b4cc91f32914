//! The `ingest_event` table and its indexes.
//!
//! The worker writes every event to one generic table, so that it never
//! builds SQL from message contents; domain tables live downstream.
use vstd::prelude::*;
use crate::db::{exec_failed_with, Connection};
use crate::engine::{receipt_sql, receipts_sql};
use crate::sqlite::Receipt;

verus! {

/// The table, created if missing.
pub const CREATE_TABLE: &'static str = "
CREATE TABLE IF NOT EXISTS ingest_event (
    id            TEXT    PRIMARY KEY,
    tenant        TEXT    NOT NULL,
    database_name TEXT    NOT NULL,
    entity        TEXT    NOT NULL,
    operation     TEXT    NOT NULL,
    topic         TEXT    NOT NULL,
    priority      TEXT    NOT NULL DEFAULT 'normal',
    schema_name   TEXT,
    payload       TEXT    NOT NULL,
    metadata      TEXT,
    received_at   TEXT    NOT NULL,
    processed_at  TEXT
) STRICT
";

/// Composite index for queries by tenant, database and entity.
pub const IDX_TENANT: &'static str = "
CREATE INDEX IF NOT EXISTS idx_ingest_tenant
    ON ingest_event(tenant, database_name, entity)
";

/// Index for time-window queries and purging.
pub const IDX_RECEIVED: &'static str = "
CREATE INDEX IF NOT EXISTS idx_ingest_received
    ON ingest_event(received_at)
";

/// Index for priority-then-time queries.
pub const IDX_PRIORITY: &'static str = "
CREATE INDEX IF NOT EXISTS idx_ingest_priority
    ON ingest_event(priority, received_at)
";

/// Partial index of the events not yet processed downstream.
pub const IDX_PENDING: &'static str = "
CREATE INDEX IF NOT EXISTS idx_ingest_pending
    ON ingest_event(processed_at)
    WHERE processed_at IS NULL
";

/// The production insert. `INSERT OR IGNORE` makes a repeated event id a
/// silent no-op, so redelivered messages are stored once.
pub const INSERT_SQL: &'static str = "
INSERT OR IGNORE INTO ingest_event(
    id, tenant, database_name, entity, operation,
    topic, priority, schema_name, payload, metadata, received_at
) VALUES (?1, ?2, ?3, ?4, ?5, ?6, ?7, ?8, ?9, ?10, ?11)
";

/// The columns the production insert writes, in the order of its column
/// list: column `k` (from 0) takes parameter `?k+1`.
pub open spec fn insert_columns() -> Seq<Seq<char>> {
    seq![
        "id"@,
        "tenant"@,
        "database_name"@,
        "entity"@,
        "operation"@,
        "topic"@,
        "priority"@,
        "schema_name"@,
        "payload"@,
        "metadata"@,
        "received_at"@,
    ]
}

/// `INSERT_SQL` lists the columns of [`insert_columns`] in that order and
/// gives them the parameters `?1` to `?11` in the same order, so parameter
/// `?k+1` is stored in column `k`.
pub proof fn lemma_insert_sql_columns()
    ensures
        ({
            let c = insert_columns();
            INSERT_SQL@ == "\nINSERT OR IGNORE INTO ingest_event(\n    "@ + c[0] + ", "@ + c[1] + ", "@ + c[2] + ", "@
                + c[3] + ", "@ + c[4] + ",\n    "@ + c[5] + ", "@ + c[6] + ", "@ + c[7] + ", "@ + c[8] + ", "@ + c[9]
                + ", "@ + c[10] + "\n) VALUES (?1, ?2, ?3, ?4, ?5, ?6, ?7, ?8, ?9, ?10, ?11)\n"@
        }),
{
    reveal_strlit("\nINSERT OR IGNORE INTO ingest_event(\n    id, tenant, database_name, entity, operation,\n    topic, priority, schema_name, payload, metadata, received_at\n) VALUES (?1, ?2, ?3, ?4, ?5, ?6, ?7, ?8, ?9, ?10, ?11)\n");
    reveal_strlit("\nINSERT OR IGNORE INTO ingest_event(\n    ");
    reveal_strlit(", ");
    reveal_strlit(",\n    ");
    reveal_strlit("\n) VALUES (?1, ?2, ?3, ?4, ?5, ?6, ?7, ?8, ?9, ?10, ?11)\n");
    reveal_strlit("id");
    reveal_strlit("tenant");
    reveal_strlit("database_name");
    reveal_strlit("entity");
    reveal_strlit("operation");
    reveal_strlit("topic");
    reveal_strlit("priority");
    reveal_strlit("schema_name");
    reveal_strlit("payload");
    reveal_strlit("metadata");
    reveal_strlit("received_at");
    let c = insert_columns();
    assert(INSERT_SQL@ =~= "\nINSERT OR IGNORE INTO ingest_event(\n    "@ + c[0] + ", "@ + c[1] + ", "@ + c[2] + ", "@
        + c[3] + ", "@ + c[4] + ",\n    "@ + c[5] + ", "@ + c[6] + ", "@ + c[7] + ", "@ + c[8] + ", "@ + c[9]
        + ", "@ + c[10] + "\n) VALUES (?1, ?2, ?3, ?4, ?5, ?6, ?7, ?8, ?9, ?10, ?11)\n"@);
}

/// The schema statements, in the order they are applied.
pub open spec fn schema_statements() -> Seq<Seq<char>> {
    seq![CREATE_TABLE@, IDX_TENANT@, IDX_RECEIVED@, IDX_PRIORITY@, IDX_PENDING@]
}

/// The statements of the schema handed to SQLite, in order: the first `n`.
pub open spec fn schema_prefix(n: int) -> Seq<Seq<char>> {
    schema_statements().take(n)
}

/// Applies the schema. Every statement is `IF NOT EXISTS`, so this may run on
/// every start. On failure, the error is the first failing statement's. The
/// receipts record the statements handed to SQLite, in order: all five,
/// each accepted, on success; none after the one that failed.
pub fn ensure(db: &Connection) -> (r: (Result<(), String>, Vec<Receipt>))
    ensures
        r.0 is Ok ==> receipts_sql(r.1@) == schema_statements() && forall|i: int|
            0 <= i < r.1@.len() ==> #[trigger] r.1@[i].ok(),
        exists|n: int| 0 <= n <= 5 && receipts_sql(r.1@) == #[trigger] schema_prefix(n),
        match r.0 {
            Err(m) => exists|k: int|
                0 <= k < 5 && #[trigger] exec_failed_with(m@, schema_statements()[k]) && (receipts_sql(r.1@)
                    == schema_prefix(k) || receipts_sql(r.1@) == schema_prefix(k + 1)),
            Ok(_) => true,
        },
{
    let statements: [&str; 5] = [CREATE_TABLE, IDX_TENANT, IDX_RECEIVED, IDX_PRIORITY, IDX_PENDING];
    let mut log: Vec<Receipt> = Vec::new();
    assert(receipts_sql(log@) =~= schema_prefix(0));
    let mut k: usize = 0;
    while k < 5
        invariant
            0 <= k <= 5,
            statements@.map_values(|q: &str| q@) == schema_statements(),
            receipts_sql(log@) == schema_prefix(k as int),
            forall|i: int| 0 <= i < log@.len() ==> #[trigger] log@[i].ok(),
        decreases 5 - k,
    {
        let (done, sent) = db.exec(statements[k]);
        assert(statements@[k as int]@ == schema_statements()[k as int]);
        proof {
            assert(schema_prefix(k + 1) =~= schema_prefix(k as int).push(schema_statements()[k as int]));
        }
        let ghost before = log@;
        if let Some(rc) = sent {
            assert(receipt_sql(rc) == schema_statements()[k as int]);
            log.push(rc);
            assert(receipts_sql(log@) =~= receipts_sql(before).push(schema_statements()[k as int]));
        }
        if let Err(m) = done {
            assert(exec_failed_with(m@, schema_statements()[k as int]));
            assert(receipts_sql(log@) == schema_prefix(k as int) || receipts_sql(log@) == schema_prefix(k + 1));
            return (Err(m), log);
        }
        k = k + 1;
    }
    assert(schema_prefix(5) =~= schema_statements());
    (Ok(()), log)
}

} // verus!
