//! Batch insertion, one inserter per priority: messages travel from the MQTT
//! subscriber through a bounded queue per priority, and each inserter writes
//! them in batches, one transaction per batch.
use vstd::prelude::*;
use crate::db::{first_nul, Connection, Stmt};
use crate::engine::receipts_sql;
use crate::sqlite::Receipt;
use crate::schema::{insert_columns, lemma_insert_sql_columns, INSERT_SQL};
use crate::statement::{step_outcome, BoundValue, StmtState};
use crate::metrics::Metrics;
use crate::topic::Priority;

verus! {

#[verifier::external_type_specification]
#[verifier::external_body]
#[verifier::reject_recursive_types(T)]
pub struct ExSyncSender<T>(std::sync::mpsc::SyncSender<T>);

#[verifier::external_type_specification]
#[verifier::external_body]
#[verifier::reject_recursive_types(T)]
pub struct ExReceiver<T>(std::sync::mpsc::Receiver<T>);

/// A message on its way from the subscriber to its inserter.
#[derive(Debug)]
pub struct IngestMsg {
    /// Unique event id, taken from the payload or generated.
    pub id: String,
    pub tenant: String,
    pub database_name: String,
    pub entity: String,
    /// Operation name (`"insert"`, `"upsert"`, …).
    pub operation: String,
    /// The whole MQTT topic, kept for auditing.
    pub raw_topic: String,
    /// Priority name (`"high"`, `"normal"`, `"low"`).
    pub priority: String,
    /// The payload's `schema` field, if any.
    pub schema_name: Option<String>,
    /// The whole JSON payload.
    pub payload_json: String,
    /// The payload's `metadata` field, serialized, if any.
    pub metadata_json: Option<String>,
    /// Reception time, ISO 8601.
    pub received_at: String,
}

/// What became of a message handed to a bounded queue.
#[derive(Debug, Clone, Copy, PartialEq, Eq, Structural)]
pub enum SendOutcome {
    /// The message was queued.
    Sent,
    /// The queue was full; the message was not queued.
    Full,
    /// The inserter is gone (shutdown); the message was not queued.
    Disconnected,
}

/// What a non-blocking receive found.
pub enum RecvOutcome<T> {
    /// A message.
    Got(T),
    /// No message waiting.
    Empty,
    /// No message waiting and no sender left.
    Disconnected,
}

/// Hands `msg` to the queue without blocking (`SyncSender::try_send`), and
/// gives back, as a ghost, the sender it used and the message it handed
/// over; which outcome comes depends on the queue's state.
#[verifier::external_body]
fn queue_try_send<T>(sender: &std::sync::mpsc::SyncSender<T>, msg: T) -> (r: (SendOutcome, Ghost<(std::sync::mpsc::SyncSender<T>, T)>))
    ensures
        r.1@ == (*sender, msg),
{
    let sent = Ghost((*sender, msg));
    match sender.try_send(msg) {
        Ok(()) => (SendOutcome::Sent, sent),
        Err(std::sync::mpsc::TrySendError::Full(_)) => (SendOutcome::Full, sent),
        Err(std::sync::mpsc::TrySendError::Disconnected(_)) => (SendOutcome::Disconnected, sent),
    }
}

/// Takes a waiting message without blocking (`Receiver::try_recv`); what
/// comes depends on the queue's state.
#[verifier::external_body]
fn queue_try_recv<T>(rx: &std::sync::mpsc::Receiver<T>) -> RecvOutcome<T> {
    match rx.try_recv() {
        Ok(m) => RecvOutcome::Got(m),
        Err(std::sync::mpsc::TryRecvError::Empty) => RecvOutcome::Empty,
        Err(std::sync::mpsc::TryRecvError::Disconnected) => RecvOutcome::Disconnected,
    }
}

/// The senders of the three priority queues, with the messages each queue
/// accepted. Dropping it closes the queues, which tells the inserters to
/// flush and stop.
pub struct Channels {
    high: std::sync::mpsc::SyncSender<IngestMsg>,
    normal: std::sync::mpsc::SyncSender<IngestMsg>,
    low: std::sync::mpsc::SyncSender<IngestMsg>,
    queued_high: Ghost<Seq<IngestMsg>>,
    queued_normal: Ghost<Seq<IngestMsg>>,
    queued_low: Ghost<Seq<IngestMsg>>,
}

/// The counters after a dispatch of a `priority` message ended in `outcome`.
pub open spec fn after_dispatch(m: Metrics, priority: Priority, outcome: SendOutcome) -> Metrics {
    if outcome == SendOutcome::Full {
        m.after_dropped(priority)
    } else {
        m
    }
}

/// Counts the outcome of a dispatch: a full queue counts one dropped message
/// of that priority; a queued message or a stopped inserter counts nothing.
pub fn record_dispatch(outcome: SendOutcome, priority: Priority, metrics: &mut Metrics)
    ensures
        *final(metrics) == after_dispatch(*old(metrics), priority, outcome),
{
    match outcome {
        SendOutcome::Full => metrics.inc_dropped(priority),
        _ => {},
    }
}

impl Channels {
    /// The sender of the queue of `priority`.
    pub closed spec fn sender(&self, priority: Priority) -> std::sync::mpsc::SyncSender<IngestMsg> {
        match priority {
            Priority::High => self.high,
            Priority::Normal => self.normal,
            Priority::Low => self.low,
        }
    }

    /// The messages the queue of `priority` accepted from this value, in order.
    pub closed spec fn queued(&self, priority: Priority) -> Seq<IngestMsg> {
        match priority {
            Priority::High => self.queued_high@,
            Priority::Normal => self.queued_normal@,
            Priority::Low => self.queued_low@,
        }
    }

    /// Whether `after` has the senders of `before`, and the same accepted
    /// messages for every priority other than `priority`.
    pub open spec fn others_kept(before: Channels, after: Channels, priority: Priority) -> bool {
        &&& forall|q: Priority| #[trigger] after.sender(q) == before.sender(q)
        &&& forall|q: Priority| q != priority ==> #[trigger] after.queued(q) == before.queued(q)
    }

    /// The channels of the three senders, with nothing accepted yet.
    pub fn new(
        high: std::sync::mpsc::SyncSender<IngestMsg>,
        normal: std::sync::mpsc::SyncSender<IngestMsg>,
        low: std::sync::mpsc::SyncSender<IngestMsg>,
    ) -> (c: Channels)
        ensures
            c.sender(Priority::High) == high,
            c.sender(Priority::Normal) == normal,
            c.sender(Priority::Low) == low,
            forall|q: Priority| #[trigger] c.queued(q) == Seq::<IngestMsg>::empty(),
    {
        Channels {
            high,
            normal,
            low,
            queued_high: Ghost(Seq::empty()),
            queued_normal: Ghost(Seq::empty()),
            queued_low: Ghost(Seq::empty()),
        }
    }

    /// Hands `msg` to the queue of `priority` without blocking. When that
    /// queue is full the message is dropped and counted; when its inserter
    /// has stopped, the message is dropped silently. The ghost is the sender
    /// used and the message handed to it; a message the queue accepted joins
    /// the end of that queue's accepted messages.
    pub fn dispatch(&mut self, msg: IngestMsg, priority: Priority, metrics: &mut Metrics) -> (r: (SendOutcome, Ghost<(std::sync::mpsc::SyncSender<IngestMsg>, IngestMsg)>))
        ensures
            *final(metrics) == after_dispatch(*old(metrics), priority, r.0),
            r.1@ == (old(self).sender(priority), msg),
            r.0 is Sent ==> final(self).queued(priority) == old(self).queued(priority).push(msg),
            !(r.0 is Sent) ==> final(self).queued(priority) == old(self).queued(priority),
            Channels::others_kept(*old(self), *final(self), priority),
    {
        let (outcome, sent) = match priority {
            Priority::High => queue_try_send(&self.high, msg),
            Priority::Normal => queue_try_send(&self.normal, msg),
            Priority::Low => queue_try_send(&self.low, msg),
        };
        record_dispatch(outcome, priority, metrics);
        if outcome == SendOutcome::Sent {
            match priority {
                Priority::High => {
                    self.queued_high = Ghost(self.queued_high@.push(sent@.1));
                },
                Priority::Normal => {
                    self.queued_normal = Ghost(self.queued_normal@.push(sent@.1));
                },
                Priority::Low => {
                    self.queued_low = Ghost(self.queued_low@.push(sent@.1));
                },
            }
        }
        (outcome, sent)
    }
}

/// The name of the inserter thread of `priority`.
pub open spec fn inserter_name_spec(priority: Priority) -> Seq<char> {
    "inserter-"@ + crate::topic::priority_name(priority)
}

/// The name of the inserter thread of `priority`: `inserter-high`, …
pub fn inserter_name(priority: Priority) -> (n: &'static str)
    ensures
        n@ == inserter_name_spec(priority),
{
    proof {
        reveal_strlit("inserter-high");
        reveal_strlit("inserter-normal");
        reveal_strlit("inserter-low");
        reveal_strlit("inserter-");
        reveal_strlit("high");
        reveal_strlit("normal");
        reveal_strlit("low");
    }
    match priority {
        Priority::High => {
            assert("inserter-"@ + "high"@ =~= "inserter-high"@);
            "inserter-high"
        },
        Priority::Normal => {
            assert("inserter-"@ + "normal"@ =~= "inserter-normal"@);
            "inserter-normal"
        },
        Priority::Low => {
            assert("inserter-"@ + "low"@ =~= "inserter-low"@);
            "inserter-low"
        },
    }
}

/// Why draining a queue stopped.
#[derive(Debug, Clone, Copy, PartialEq, Eq, Structural)]
pub enum Drained {
    /// The batch reached its size.
    Full,
    /// The queue answered that no message was waiting.
    Empty,
    /// The queue answered that it is empty and every sender is gone.
    Closed,
}

/// One step of draining: a received message joins the end of `batch` and
/// draining goes on (`None`); an empty or closed queue stops it.
pub fn take_received<T>(batch: &mut Vec<T>, got: RecvOutcome<T>) -> (stop: Option<Drained>)
    ensures
        got matches RecvOutcome::Got(m) ==> stop is None && final(batch)@ == old(batch)@.push(m),
        got is Empty ==> stop == Some(Drained::Empty) && final(batch)@ == old(batch)@,
        got is Disconnected ==> stop == Some(Drained::Closed) && final(batch)@ == old(batch)@,
{
    match got {
        RecvOutcome::Got(m) => {
            batch.push(m);
            None
        },
        RecvOutcome::Empty => Some(Drained::Empty),
        RecvOutcome::Disconnected => Some(Drained::Closed),
    }
}

/// Moves waiting messages into `batch`, without blocking, until it holds
/// `batch_size` messages or the queue answers that none is waiting (or that
/// it is closed); the answer that stopped it is returned. The messages
/// already in `batch` stay first and in order, and the received ones follow
/// in the order the queue gave them.
pub fn drain_into<T>(rx: &std::sync::mpsc::Receiver<T>, batch: &mut Vec<T>, batch_size: usize) -> (d: Drained)
    ensures
        final(batch)@.len() >= old(batch)@.len(),
        final(batch)@.take(old(batch)@.len() as int) == old(batch)@,
        old(batch)@.len() <= batch_size ==> final(batch)@.len() <= batch_size,
        old(batch)@.len() >= batch_size ==> final(batch)@ == old(batch)@,
        d is Full <==> final(batch)@.len() >= batch_size,
        d is Full && old(batch)@.len() < batch_size ==> final(batch)@.len() == batch_size,
{
    let ghost start = batch@;
    assert(batch@.take(start.len() as int) =~= start);
    while batch.len() < batch_size
        invariant
            start == old(batch)@,
            batch@.len() >= start.len(),
            batch@.take(start.len() as int) == start,
            start.len() <= batch_size ==> batch@.len() <= batch_size,
            start.len() >= batch_size ==> batch@ == start,
        decreases batch_size - batch@.len(),
    {
        let ghost before = batch@;
        match take_received(batch, queue_try_recv(rx)) {
            None => {
                assert(batch@.take(start.len() as int) =~= before.take(start.len() as int));
            },
            Some(stop) => {
                return stop;
            },
        }
    }
    Drained::Full
}

/// How an inserter's wait for its queue ended.
pub enum Wake<T> {
    /// A message arrived.
    Message(T),
    /// The flush period passed with no message.
    Timeout,
    /// The queue is closed and empty: every sender is gone.
    Closed,
}

/// What an inserter does next.
#[derive(Debug, Clone, Copy, PartialEq, Eq, Structural)]
pub enum Next {
    /// Wait for the queue again.
    Wait,
    /// Write the batch, then wait again.
    Write,
    /// Write what is left and stop.
    Finish,
}

/// Decides what an inserter does after waking up: an arrived message joins
/// `batch` with whatever else is waiting, up to `batch_size`, and the batch
/// is written; a timeout waits again; a closed queue finishes.
pub fn after_wake<T>(rx: &std::sync::mpsc::Receiver<T>, batch: &mut Vec<T>, batch_size: usize, wake: Wake<T>) -> (next: Next)
    ensures
        wake is Timeout ==> next == Next::Wait && final(batch)@ == old(batch)@,
        wake is Closed ==> next == Next::Finish && final(batch)@ == old(batch)@,
        wake matches Wake::Message(m) ==> {
            &&& next == Next::Write
            &&& final(batch)@.len() > old(batch)@.len()
            &&& final(batch)@.take(old(batch)@.len() + 1int) == old(batch)@.push(m)
            &&& old(batch)@.len() < batch_size ==> final(batch)@.len() <= batch_size
        },
{
    match wake {
        Wake::Message(m) => {
            let ghost start = batch@;
            batch.push(m);
            let ghost pushed = batch@;
            drain_into(rx, batch, batch_size);
            assert(batch@.take(start.len() + 1int) =~= pushed.take(pushed.len() as int));
            assert(pushed.take(pushed.len() as int) =~= pushed);
            Next::Write
        },
        Wake::Timeout => Next::Wait,
        Wake::Closed => Next::Finish,
    }
}

/// Whether some text field of `msg` holds a NUL character (which no SQL
/// text parameter can carry).
pub open spec fn has_nul_field(msg: &IngestMsg) -> bool {
    ||| first_nul(msg.id@) is Some
    ||| first_nul(msg.tenant@) is Some
    ||| first_nul(msg.database_name@) is Some
    ||| first_nul(msg.entity@) is Some
    ||| first_nul(msg.operation@) is Some
    ||| first_nul(msg.raw_topic@) is Some
    ||| first_nul(msg.priority@) is Some
    ||| (msg.schema_name matches Some(s) && first_nul(s@) is Some)
    ||| first_nul(msg.payload_json@) is Some
    ||| (msg.metadata_json matches Some(s) && first_nul(s@) is Some)
    ||| first_nul(msg.received_at@) is Some
}

/// Text, or NULL where there is none.
pub open spec fn text_or_null(s: Option<String>) -> BoundValue {
    match s {
        Some(t) => BoundValue::Text(t@),
        None => BoundValue::Null,
    }
}

/// The parameters an insert of `msg` runs with: 1 id, 2 tenant, 3 database,
/// 4 entity, 5 operation, 6 topic, 7 priority, 8 schema (or NULL), 9
/// payload, 10 metadata (or NULL), 11 reception time.
pub open spec fn msg_params(msg: IngestMsg) -> Map<int, BoundValue> {
    Map::<int, BoundValue>::empty()
        .insert(1, BoundValue::Text(msg.id@))
        .insert(2, BoundValue::Text(msg.tenant@))
        .insert(3, BoundValue::Text(msg.database_name@))
        .insert(4, BoundValue::Text(msg.entity@))
        .insert(5, BoundValue::Text(msg.operation@))
        .insert(6, BoundValue::Text(msg.raw_topic@))
        .insert(7, BoundValue::Text(msg.priority@))
        .insert(8, text_or_null(msg.schema_name))
        .insert(9, BoundValue::Text(msg.payload_json@))
        .insert(10, text_or_null(msg.metadata_json))
        .insert(11, BoundValue::Text(msg.received_at@))
}

/// The value a message gives the column called `column` of the production
/// insert: the field of that name (`topic` is the whole MQTT topic,
/// `payload` the JSON payload, `metadata` its serialized metadata; schema and
/// metadata are NULL where absent). Any other name gets NULL.
pub open spec fn column_value(msg: IngestMsg, column: Seq<char>) -> BoundValue {
    if column == "id"@ {
        BoundValue::Text(msg.id@)
    } else if column == "tenant"@ {
        BoundValue::Text(msg.tenant@)
    } else if column == "database_name"@ {
        BoundValue::Text(msg.database_name@)
    } else if column == "entity"@ {
        BoundValue::Text(msg.entity@)
    } else if column == "operation"@ {
        BoundValue::Text(msg.operation@)
    } else if column == "topic"@ {
        BoundValue::Text(msg.raw_topic@)
    } else if column == "priority"@ {
        BoundValue::Text(msg.priority@)
    } else if column == "schema_name"@ {
        text_or_null(msg.schema_name)
    } else if column == "payload"@ {
        BoundValue::Text(msg.payload_json@)
    } else if column == "metadata"@ {
        text_or_null(msg.metadata_json)
    } else if column == "received_at"@ {
        BoundValue::Text(msg.received_at@)
    } else {
        BoundValue::Null
    }
}

/// Each run of the production insert stores every field of the message in
/// the column of its name: the parameters bound are exactly 1 to 11, and
/// parameter `k+1`, which `INSERT_SQL` stores in column `k` of its column
/// list, holds the message's value for that column.
pub proof fn lemma_msg_params_by_column(msg: IngestMsg)
    ensures
        msg_params(msg).dom() == Set::new(|k: int| 1 <= k <= 11),
        forall|k: int|
            0 <= k < 11 ==> #[trigger] msg_params(msg)[k + 1] == column_value(msg, insert_columns()[k]),
        INSERT_SQL@ == ({
            let c = insert_columns();
            "\nINSERT OR IGNORE INTO ingest_event(\n    "@ + c[0] + ", "@ + c[1] + ", "@ + c[2] + ", "@ + c[3] + ", "@
                + c[4] + ",\n    "@ + c[5] + ", "@ + c[6] + ", "@ + c[7] + ", "@ + c[8] + ", "@ + c[9] + ", "@
                + c[10] + "\n) VALUES (?1, ?2, ?3, ?4, ?5, ?6, ?7, ?8, ?9, ?10, ?11)\n"@
        }),
{
    lemma_insert_sql_columns();
    reveal_strlit("id");
    reveal_strlit("tenant");
    reveal_strlit("database_name");
    reveal_strlit("entity");
    reveal_strlit("operation");
    reveal_strlit("topic");
    reveal_strlit("priority");
    reveal_strlit("schema_name");
    reveal_strlit("payload");
    reveal_strlit("metadata");
    reveal_strlit("received_at");
    let m = msg_params(msg);
    assert(m.dom() =~= Set::new(|k: int| 1 <= k <= 11));
    assert forall|k: int| 0 <= k < 11 implies #[trigger] m[k + 1] == column_value(msg, insert_columns()[k]) by {
        let c = insert_columns();
        if k == 0 {
        } else if k == 1 {
            assert(c[1].len() != "id"@.len());
        } else if k == 2 {
            assert(c[2].len() != "id"@.len());
            assert(c[2].len() != "tenant"@.len());
        } else if k == 3 {
            assert(c[3].len() != "id"@.len());
            assert(c[3][0] != "tenant"@[0]);
            assert(c[3].len() != "database_name"@.len());
        } else if k == 4 {
            assert(c[4].len() != "id"@.len());
            assert(c[4].len() != "tenant"@.len());
            assert(c[4].len() != "database_name"@.len());
            assert(c[4].len() != "entity"@.len());
        } else if k == 5 {
            assert(c[5].len() != "id"@.len());
            assert(c[5].len() != "tenant"@.len());
            assert(c[5].len() != "database_name"@.len());
            assert(c[5].len() != "entity"@.len());
            assert(c[5].len() != "operation"@.len());
        } else if k == 6 {
            assert(c[6].len() != "id"@.len());
            assert(c[6].len() != "tenant"@.len());
            assert(c[6].len() != "database_name"@.len());
            assert(c[6].len() != "entity"@.len());
            assert(c[6].len() != "operation"@.len());
            assert(c[6].len() != "topic"@.len());
        } else if k == 7 {
            assert(c[7].len() != "id"@.len());
            assert(c[7].len() != "tenant"@.len());
            assert(c[7].len() != "database_name"@.len());
            assert(c[7].len() != "entity"@.len());
            assert(c[7].len() != "operation"@.len());
            assert(c[7].len() != "topic"@.len());
            assert(c[7].len() != "priority"@.len());
        } else if k == 8 {
            assert(c[8].len() != "id"@.len());
            assert(c[8].len() != "tenant"@.len());
            assert(c[8].len() != "database_name"@.len());
            assert(c[8].len() != "entity"@.len());
            assert(c[8].len() != "operation"@.len());
            assert(c[8].len() != "topic"@.len());
            assert(c[8].len() != "priority"@.len());
            assert(c[8].len() != "schema_name"@.len());
        } else if k == 9 {
            assert(c[9].len() != "id"@.len());
            assert(c[9].len() != "tenant"@.len());
            assert(c[9].len() != "database_name"@.len());
            assert(c[9].len() != "entity"@.len());
            assert(c[9].len() != "operation"@.len());
            assert(c[9].len() != "topic"@.len());
            assert(c[9][0] != "priority"@[0]);
            assert(c[9].len() != "schema_name"@.len());
            assert(c[9].len() != "payload"@.len());
        } else {
            assert(c[10].len() != "id"@.len());
            assert(c[10].len() != "tenant"@.len());
            assert(c[10].len() != "database_name"@.len());
            assert(c[10].len() != "entity"@.len());
            assert(c[10].len() != "operation"@.len());
            assert(c[10].len() != "topic"@.len());
            assert(c[10].len() != "priority"@.len());
            assert(c[10][0] != "schema_name"@[0]);
            assert(c[10].len() != "payload"@.len());
            assert(c[10].len() != "metadata"@.len());
        }
    }
}

/// Binds every field of `msg` to the insert statement (parameters 1 to 11:
/// id, tenant, database, entity, operation, topic, priority, schema,
/// payload, metadata, reception time) and runs it once. The statement is
/// reset first, which fails when its last run failed; after a bind failure
/// it stays ready, and after a successful run it holds the run's outcome.
/// A run reaches SQLite only with every parameter of `msg` bound
/// ([`msg_params`]).
pub fn bind_and_step(stmt: &mut Stmt, msg: &IngestMsg) -> (r: Result<(), String>)
    ensures
        final(stmt).sql() == old(stmt).sql(),
        r is Ok ==> final(stmt).runs() == old(stmt).runs().push(msg_params(*msg)),
        final(stmt).runs() == old(stmt).runs() || final(stmt).runs() == old(stmt).runs().push(msg_params(*msg)),
        has_nul_field(msg) ==> r is Err,
        old(stmt).state() matches StmtState::Halted(Some(_)) ==> r is Err && final(stmt).state() is Ready,
        r is Ok ==> step_outcome(StmtState::Ready, final(stmt).state(), 0) || step_outcome(
            StmtState::Ready,
            final(stmt).state(),
            1,
        ),
{
    stmt.reset()?;
    stmt.clear_bindings()?;
    stmt.bind_text(1, msg.id.as_str())?;
    stmt.bind_text(2, msg.tenant.as_str())?;
    stmt.bind_text(3, msg.database_name.as_str())?;
    stmt.bind_text(4, msg.entity.as_str())?;
    stmt.bind_text(5, msg.operation.as_str())?;
    stmt.bind_text(6, msg.raw_topic.as_str())?;
    stmt.bind_text(7, msg.priority.as_str())?;
    match &msg.schema_name {
        Some(s) => stmt.bind_text_opt(8, Some(s.as_str()))?,
        None => stmt.bind_text_opt(8, None)?,
    }
    stmt.bind_text(9, msg.payload_json.as_str())?;
    match &msg.metadata_json {
        Some(s) => stmt.bind_text_opt(10, Some(s.as_str()))?,
        None => stmt.bind_text_opt(10, None)?,
    }
    stmt.bind_text(11, msg.received_at.as_str())?;
    assert(stmt.bound() =~= msg_params(*msg));
    stmt.step()?;
    Ok(())
}

/// The counters after a batch of `n` messages of `priority`: committed and
/// one more batch when it was written, one more error when it was not.
pub open spec fn after_batch_outcome(m: Metrics, priority: Priority, n: u64, written: bool) -> Metrics {
    if written {
        m.after_committed(priority, n).after_batch(priority)
    } else {
        m.after_error(priority)
    }
}

/// Counts the outcome of writing `n` messages of `priority` (see
/// [`after_batch_outcome`]).
pub fn record_batch(metrics: &mut Metrics, priority: Priority, n: u64, written: bool)
    ensures
        *final(metrics) == after_batch_outcome(*old(metrics), priority, n, written),
{
    if written {
        metrics.add_committed(priority, n);
        metrics.inc_batch(priority);
    } else {
        metrics.inc_error(priority);
    }
}

/// The transaction statements a batch hands to the connection, in order:
/// `BEGIN IMMEDIATE`; then `COMMIT` once every insert ran; then `ROLLBACK`
/// where an insert or the commit failed. A batch whose transaction could not
/// begin stops at the first.
pub open spec fn batch_transaction(begun: bool, all_inserted: bool, committed: bool) -> Seq<Seq<char>> {
    if !begun {
        seq!["BEGIN IMMEDIATE"@]
    } else if !all_inserted {
        seq!["BEGIN IMMEDIATE"@, "ROLLBACK"@]
    } else if committed {
        seq!["BEGIN IMMEDIATE"@, "COMMIT"@]
    } else {
        seq!["BEGIN IMMEDIATE"@, "COMMIT"@, "ROLLBACK"@]
    }
}

/// Writes `batch` in one `BEGIN IMMEDIATE … COMMIT` transaction and empties
/// it. When any insert or the commit fails, the transaction is rolled back
/// and the error's description is returned; a batch whose transaction could
/// not even begin is dropped. The receipts record the transaction
/// statements handed to the connection (see [`batch_transaction`]); the
/// inserts are the statement's runs.
#[verifier::spinoff_prover]
pub fn write_batch(db: &Connection, stmt: &mut Stmt, batch: &mut Vec<IngestMsg>) -> (r: (Result<(), String>, Vec<Receipt>))
    ensures
        final(batch)@.len() == 0,
        final(stmt).sql() == old(stmt).sql(),
        exists|begun: bool, all_inserted: bool| #[trigger] batch_transaction(begun, all_inserted, r.0 is Ok)
            == receipts_sql(r.1@),
        r.0 is Ok ==> receipts_sql(r.1@) == batch_transaction(true, true, true) && r.1@[0].ok() && r.1@[1].ok(),
        r.1@.len() >= 2 ==> r.1@[0].ok(),
        receipts_sql(r.1@) == batch_transaction(false, false, false) ==> r.0 is Err && final(stmt).runs() == old(
            stmt,
        ).runs(),
        r.1@.len() >= 2 && receipts_sql(r.1@)[1] == "COMMIT"@ ==> final(stmt).runs() == old(stmt).runs()
            + old(batch)@.map_values(|m: IngestMsg| msg_params(m)),
        r.0 is Ok ==> final(stmt).runs() == old(stmt).runs() + old(batch)@.map_values(|m: IngestMsg| msg_params(m)),
        (exists|i: int| 0 <= i < old(batch)@.len() && has_nul_field(&old(batch)@[i])) ==> r.0 is Err,
{
    let (begun, begin_sent) = db.begin_immediate();
    let mut log: Vec<Receipt> = Vec::new();
    if let Some(rc) = begin_sent {
        log.push(rc);
    }
    let ghost begin_log = log@;
    assert(receipts_sql(log@) =~= seq!["BEGIN IMMEDIATE"@]);
    if let Err(e) = begun {
        batch.clear();
        let mut m = String::new();
        crate::text::push_str(&mut m, "BEGIN IMMEDIATE falló: ");
        crate::text::push_str(&mut m, e.as_str());
        assert(receipts_sql(log@) =~= batch_transaction(false, false, false));
        return (Err(m), log);
    }
    let mut failure: Option<String> = None;
    let mut i: usize = 0;
    let ghost runs0 = stmt.runs();
    let ghost sql0 = stmt.sql();
    assert(batch@.take(0).map_values(|m: IngestMsg| msg_params(m)) =~= Seq::<Map<int, BoundValue>>::empty());
    assert(runs0 + Seq::<Map<int, BoundValue>>::empty() =~= runs0);
    while i < batch.len()
        invariant
            i <= batch@.len(),
            batch@ == old(batch)@,
            stmt.sql() == sql0,
            runs0 == old(stmt).runs(),
            sql0 == old(stmt).sql(),
            failure is None ==> forall|j: int| 0 <= j < i ==> !has_nul_field(&batch@[j]),
            failure is None ==> stmt.runs() == runs0 + batch@.take(i as int).map_values(|m: IngestMsg| msg_params(m)),
        ensures
            stmt.sql() == sql0,
            failure is None ==> forall|j: int| 0 <= j < batch@.len() ==> !has_nul_field(&batch@[j]),
            failure is None ==> stmt.runs() == runs0 + batch@.map_values(|m: IngestMsg| msg_params(m)),
        decreases batch@.len() - i,
    {
        let ghost before = stmt.runs();
        proof {
            assert(batch@.take(i + 1).map_values(|m: IngestMsg| msg_params(m)) =~= batch@.take(i as int).map_values(
                |m: IngestMsg| msg_params(m),
            ).push(msg_params(batch@[i as int])));
        }
        if let Err(e) = bind_and_step(stmt, &batch[i]) {
            let mut m = String::new();
            crate::text::push_str(&mut m, "bind/step falló: ");
            crate::text::push_str(&mut m, e.as_str());
            failure = Some(m);
            break;
        }
        i = i + 1;
        proof {
            if failure is None {
                assert(runs0 + batch@.take(i as int).map_values(|m: IngestMsg| msg_params(m)) =~= before.push(
                    msg_params(batch@[i - 1]),
                ));
                if i == batch@.len() {
                    assert(batch@.take(i as int) =~= batch@);
                }
            }
        }
    }
    if batch.len() == 0 {
        assert(batch@.take(0) =~= batch@);
    }
    let outcome = match failure {
        None => {
            let (committed, commit_sent) = db.commit();
            if let Some(rc) = commit_sent {
                log.push(rc);
            }
            assert(receipts_sql(log@) =~= seq!["BEGIN IMMEDIATE"@, "COMMIT"@]);
            match committed {
                Ok(()) => Ok(()),
                Err(e) => {
                    let (_, rollback_sent) = db.rollback();
                    if let Some(rc) = rollback_sent {
                        log.push(rc);
                    }
                    let mut m = String::new();
                    crate::text::push_str(&mut m, "COMMIT falló: ");
                    crate::text::push_str(&mut m, e.as_str());
                    assert(receipts_sql(log@) =~= batch_transaction(true, true, false));
                    Err(m)
                },
            }
        },
        Some(m) => {
            let (_, rollback_sent) = db.rollback();
            if let Some(rc) = rollback_sent {
                log.push(rc);
            }
            assert(receipts_sql(log@) =~= batch_transaction(true, false, false));
            proof {
                reveal_strlit("ROLLBACK");
                reveal_strlit("COMMIT");
                assert(receipts_sql(log@)[1].len() != "COMMIT"@.len());
            }
            Err(m)
        },
    };
    batch.clear();
    proof {
        let all_inserted = failure is None;
        assert(batch_transaction(true, all_inserted, outcome is Ok) == receipts_sql(log@));
    }
    (outcome, log)
}

/// Writes `batch` (see [`write_batch`]) and counts the outcome: committed
/// messages and one more batch when it was written, one more error of its
/// priority when it was not.
pub fn insert_batch(
    priority: Priority,
    db: &Connection,
    stmt: &mut Stmt,
    batch: &mut Vec<IngestMsg>,
    metrics: &mut Metrics,
) -> (r: (Result<(), String>, Vec<Receipt>))
    ensures
        final(batch)@.len() == 0,
        *final(metrics) == after_batch_outcome(*old(metrics), priority, old(batch)@.len() as u64, r.0 is Ok),
        final(stmt).sql() == old(stmt).sql(),
        exists|begun: bool, all_inserted: bool| #[trigger] batch_transaction(begun, all_inserted, r.0 is Ok)
            == receipts_sql(r.1@),
        r.0 is Ok ==> receipts_sql(r.1@) == batch_transaction(true, true, true) && r.1@[0].ok() && r.1@[1].ok(),
        r.1@.len() >= 2 ==> r.1@[0].ok(),
        receipts_sql(r.1@) == batch_transaction(false, false, false) ==> r.0 is Err && final(stmt).runs() == old(
            stmt,
        ).runs(),
        r.1@.len() >= 2 && receipts_sql(r.1@)[1] == "COMMIT"@ ==> final(stmt).runs() == old(stmt).runs()
            + old(batch)@.map_values(|m: IngestMsg| msg_params(m)),
        r.0 is Ok ==> final(stmt).runs() == old(stmt).runs() + old(batch)@.map_values(|m: IngestMsg| msg_params(m)),
        (exists|i: int| 0 <= i < old(batch)@.len() && has_nul_field(&old(batch)@[i])) ==> r.0 is Err,
{
    let n = batch.len();
    let r = write_batch(db, stmt, batch);
    record_batch(metrics, priority, n as u64, r.0.is_ok());
    r
}

} // verus!
