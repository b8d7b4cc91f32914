# sqlite_native_runtime

A SQLite runtime for the JVM (C and JNI interfaces) and an MQTT → SQLite
ingest worker, with their logic verified by Verus.

Layout:

- `src/` — the verified library.
  - `engine.rs`: connections, `exec`, transactions and savepoints, WAL
    checkpoints; `statement.rs`: prepared statements, parameters, stepping
    through rows and reading columns; `error.rs`: the last-error slot;
    `runtime.rs`: flags, modes, names and identifier quoting.
  - `topic.rs`, `config.rs`, `parse.rs`: topic grammar and configuration;
    `metrics.rs`, `control.rs`: counters and the worker's publications;
    `ingest.rs`, `inserter.rs`, `db.rs`, `schema.rs`: from a published
    message to a committed row; `spike/`: the single-queue worker.
- `app/` — the programs around it: the C ABI (`ffi.rs`), the JNI exports
  (`jni_bridge.rs`), the worker and the single-queue worker (threads, MQTT,
  signals, printing).
- `tests/` — tests of the library.

Every call into SQLite goes through `src/sqlite.rs`, and each gives back a
`Receipt` of what it handed over (the SQL, the path and flags, the parameters
of an insert) and whether SQLite answered with success. Only that module can
make a receipt, so when a function returns receipts, or keeps them (a handle
keeps the receipt of its open, a connection those of its settings), its
contract speaks of calls that were made. What SQLite answers beyond success is
its own; the verified functions that read an answer take it as an argument.
