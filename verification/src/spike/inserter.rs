//! Inserter of the single-queue worker: batches of MQTT messages written to
//! `mqtt_messages` in one transaction each.
use vstd::prelude::*;
use rusqlite::Connection as SqliteConnection;
use crate::sqlite::{self, Receipt, Request};

verus! {

#[verifier::external_type_specification]
#[verifier::external_body]
pub struct ExTransaction<'conn>(rusqlite::Transaction<'conn>);

#[verifier::external_type_specification]
#[verifier::external_body]
pub struct ExCachedStatement<'conn>(rusqlite::CachedStatement<'conn>);

/// A message ready to insert.
#[derive(Debug)]
pub struct MqttMsg {
    pub topic: String,
    pub payload: String,
    pub received_ms: i64,
}

/// The text of `bytes` read as UTF-8, each invalid sequence replaced by
/// U+FFFD.
pub uninterp spec fn lossy_text(bytes: Seq<u8>) -> Seq<char>;

/// Reads `bytes` as UTF-8 with invalid sequences replaced
/// (`String::from_utf8_lossy`): for valid UTF-8, exactly the text the
/// bytes encode.
#[verifier::external_body]
fn utf8_lossy(bytes: &[u8]) -> (s: String)
    ensures
        s@ == lossy_text(bytes@),
        vstd::utf8::valid_utf8(bytes@) ==> s@ == vstd::utf8::decode_utf8(bytes@),
{
    String::from_utf8_lossy(bytes).into_owned()
}

/// The message for a publication on `topic` with `payload`, received at
/// `received_ms` (milliseconds since the Unix epoch).
pub fn spike_message(topic: String, payload: &[u8], received_ms: i64) -> (m: MqttMsg)
    ensures
        m.topic == topic,
        m.payload@ == lossy_text(payload@),
        vstd::utf8::valid_utf8(payload@) ==> m.payload@ == vstd::utf8::decode_utf8(payload@),
        m.received_ms == received_ms,
{
    MqttMsg { topic, payload: utf8_lossy(payload), received_ms }
}

/// What the subscriber has seen: messages received and messages dropped
/// because the queue was full.
pub struct SubscriberCounts {
    pub received: u64,
    pub dropped: u64,
}

impl SubscriberCounts {
    /// No message seen yet.
    pub fn new() -> (c: SubscriberCounts)
        ensures
            c.received == 0 && c.dropped == 0,
    {
        SubscriberCounts { received: 0, dropped: 0 }
    }

    /// Counts one received message, dropped when it could not be queued;
    /// true when progress is reported now: after every ten-thousandth message.
    pub fn count(&mut self, queued: bool) -> (report: bool)
        requires
            old(self).received < u64::MAX,
            !queued ==> old(self).dropped < u64::MAX,
        ensures
            final(self).received == old(self).received + 1,
            final(self).dropped == (if queued { old(self).dropped as int } else { old(self).dropped + 1 }),
            report == (final(self).received % 10_000 == 0),
    {
        self.received = self.received + 1;
        if !queued {
            self.dropped = self.dropped + 1;
        }
        self.received % 10_000 == 0
    }
}

/// The journal settings and the `mqtt_messages` table with its indexes.
pub const SPIKE_SCHEMA: &'static str = "
            PRAGMA journal_mode = WAL;
            PRAGMA synchronous  = NORMAL;
            PRAGMA busy_timeout = 5000;
            CREATE TABLE IF NOT EXISTS mqtt_messages (
                id          INTEGER PRIMARY KEY,
                topic       TEXT    NOT NULL,
                payload     TEXT,
                received_ms INTEGER NOT NULL
            );
            CREATE INDEX IF NOT EXISTS idx_mqtt_topic ON mqtt_messages(topic);
            CREATE INDEX IF NOT EXISTS idx_mqtt_ts    ON mqtt_messages(received_ms);
        ";

/// The insert of one message.
pub const SPIKE_INSERT_SQL: &'static str = "INSERT INTO mqtt_messages(topic, payload, received_ms) VALUES(?1, ?2, ?3)";

/// The parameters an insert of `m` runs with: topic, payload, reception time.
pub open spec fn insert_params(m: MqttMsg) -> (Seq<char>, Seq<char>, i64) {
    (m.topic@, m.payload@, m.received_ms)
}

/// What a batch asks of SQLite, in order: a transaction, the insert's SQL,
/// one insert run per message with its parameters, and the commit.
pub open spec fn batch_requests(batch: Seq<MqttMsg>) -> Seq<Request> {
    seq![Request::Begin, Request::Sql(SPIKE_INSERT_SQL@)] + batch.map_values(
        |m: MqttMsg| Request::Insert(m.topic@, m.payload@, m.received_ms),
    ) + seq![Request::Sql("COMMIT"@)]
}

/// What `receipts` record as asked, in order.
pub open spec fn requests_of(receipts: Seq<Receipt>) -> Seq<Request> {
    receipts.map_values(|rc: Receipt| rc.request())
}

/// Whether SQLite accepted every call that `receipts` record.
pub open spec fn all_ok(receipts: Seq<Receipt>) -> bool {
    forall|i: int| 0 <= i < receipts.len() ==> #[trigger] receipts[i].ok()
}

/// The inserter: its connection, its batch settings and its counters.
pub struct Inserter {
    pub conn: SqliteConnection,
    pub batch_size: usize,
    pub flush_ms: u64,
    pub committed: u64,
    pub batches: u64,
    pub errors: u64,
    /// The receipts of opening the database and applying the schema.
    pub setup: Vec<Receipt>,
}

impl Inserter {
    /// Opens the database, switches it to WAL and creates the schema if missing.
    pub fn new(db_path: &str, batch_size: usize, flush_ms: u64) -> (r: Result<Inserter, rusqlite::Error>)
        ensures
            r matches Ok(i) ==> i.batch_size() == batch_size && i.flush_ms() == flush_ms && i.committed == 0
                && i.batches == 0 && i.errors == 0,
            r matches Ok(i) ==> requests_of(i.setup@) == seq![Request::Open(db_path@, 0), Request::Sql(SPIKE_SCHEMA@)]
                && all_ok(i.setup@),
    {
        let (opened, open_rc) = sqlite::open_default(db_path);
        let conn = opened?;
        let (done, schema_rc) = sqlite::execute_batch(&conn, SPIKE_SCHEMA);
        done?;
        let mut setup: Vec<Receipt> = Vec::new();
        setup.push(open_rc);
        setup.push(schema_rc);
        assert(requests_of(setup@) =~= seq![Request::Open(db_path@, 0), Request::Sql(SPIKE_SCHEMA@)]);
        Ok(Inserter { conn, batch_size, flush_ms, committed: 0, batches: 0, errors: 0, setup })
    }

    /// The largest number of messages per transaction.
    pub open spec fn batch_size(&self) -> usize {
        self.batch_size
    }

    /// The longest wait (ms) for a first message before flushing.
    pub open spec fn flush_ms(&self) -> u64 {
        self.flush_ms
    }

    pub fn get_batch_size(&self) -> (n: usize)
        ensures
            n == self.batch_size(),
    {
        self.batch_size
    }

    pub fn get_flush_ms(&self) -> (n: u64)
        ensures
            n == self.flush_ms(),
    {
        self.flush_ms
    }

    /// Inserts `batch` in one transaction; on any failure nothing of it stays
    /// (the transaction is dropped uncommitted). The receipts record what was
    /// asked of SQLite, in order, up to the first call that failed: the
    /// transaction, the insert's SQL, one insert run per message and the
    /// commit (see [`batch_requests`]).
    pub fn insert_batch(&self, batch: &Vec<MqttMsg>) -> (r: (Result<(), rusqlite::Error>, Vec<Receipt>))
        ensures
            1 <= r.1@.len() <= batch@.len() + 3,
            requests_of(r.1@) == batch_requests(batch@).take(r.1@.len() as int),
            all_ok(r.1@.drop_last()),
            r.0 is Ok <==> r.1@.len() == batch@.len() + 3 && r.1@.last().ok(),
            r.0 is Ok ==> requests_of(r.1@) == batch_requests(batch@) && all_ok(r.1@),
    {
        let ghost want = batch_requests(batch@);
        let mut log: Vec<Receipt> = Vec::new();
        let (started, begin_rc) = sqlite::transaction(&self.conn);
        log.push(begin_rc);
        assert(requests_of(log@) =~= want.take(1));
        let tx = match started {
            Ok(tx) => tx,
            Err(e) => {
                return (Err(e), log);
            },
        };
        {
            let (prepared, prep_rc) = sqlite::prepare_cached(&tx, SPIKE_INSERT_SQL);
            let ghost before = log@;
            log.push(prep_rc);
            assert(requests_of(log@) =~= want.take(2));
            assert(log@.drop_last() =~= before);
            let mut stmt = match prepared {
                Ok(st) => st,
                Err(e) => {
                    return (Err(e), log);
                },
            };
            let mut i: usize = 0;
            while i < batch.len()
                invariant
                    i <= batch@.len(),
                    want == batch_requests(batch@),
                    log@.len() == i + 2,
                    requests_of(log@) == want.take((i + 2) as int),
                    all_ok(log@),
                decreases batch@.len() - i,
            {
                let msg = &batch[i];
                let (done, ins_rc) = sqlite::insert_message(&mut stmt, msg.topic.as_str(), msg.payload.as_str(), msg.received_ms);
                let ghost before = log@;
                log.push(ins_rc);
                assert(want[(i + 2) as int] == Request::Insert(batch@[i as int].topic@, batch@[i as int].payload@, batch@[i as int].received_ms));
                assert(requests_of(log@) =~= want.take((i + 3) as int));
                assert(log@.drop_last() =~= before);
                if let Err(e) = done {
                    return (Err(e), log);
                }
                i = i + 1;
            }
        }
        let (committed, commit_rc) = sqlite::commit(tx);
        let ghost before = log@;
        log.push(commit_rc);
        assert(requests_of(log@) =~= want.take((batch@.len() + 3) as int));
        assert(want.take((batch@.len() + 3) as int) =~= want);
        assert(log@.drop_last() =~= before);
        (committed, log)
    }

    /// Counts a batch of `n` messages: committed and one more batch when it
    /// was written, one more error when it was not.
    pub fn record_batch(&mut self, n: usize, written: bool)
        requires
            written ==> old(self).committed + n <= u64::MAX && old(self).batches < u64::MAX,
            !written ==> old(self).errors < u64::MAX,
        ensures
            written ==> final(self).committed == old(self).committed + n && final(self).batches == old(self).batches + 1
                && final(self).errors == old(self).errors,
            !written ==> final(self).errors == old(self).errors + 1 && final(self).committed == old(self).committed
                && final(self).batches == old(self).batches,
            final(self).batch_size() == old(self).batch_size(),
            final(self).flush_ms() == old(self).flush_ms(),
    {
        if written {
            self.committed = self.committed + n as u64;
            self.batches = self.batches + 1;
        } else {
            self.errors = self.errors + 1;
        }
    }

    /// Whether progress is reported now: after every twentieth batch.
    pub fn should_report(&self) -> (b: bool)
        ensures
            b == (self.batches % 20 == 0),
    {
        self.batches % 20 == 0
    }
}

} // verus!
