//! Worker counters: messages received, committed, dropped and failed per
//! priority, batches, dead-letter publications and broker reconnections.
use vstd::prelude::*;
use crate::text::{decimal, push_decimal, push_str};
use crate::topic::Priority;

verus! {

/// The worker's counters. Every counter wraps around at `u64::MAX`.
#[derive(Debug)]
pub struct Metrics {
    pub received_high: u64,
    pub received_normal: u64,
    pub received_low: u64,
    /// Messages whose topic or payload could not be used.
    pub received_invalid: u64,
    pub committed_high: u64,
    pub committed_normal: u64,
    pub committed_low: u64,
    /// Messages dropped because their queue was full.
    pub dropped_high: u64,
    pub dropped_normal: u64,
    pub dropped_low: u64,
    pub errors_high: u64,
    pub errors_normal: u64,
    pub errors_low: u64,
    pub dlq_sent: u64,
    pub mqtt_reconnects: u64,
    pub batches_high: u64,
    pub batches_normal: u64,
    pub batches_low: u64,
}

/// The counters at one instant.
#[derive(Debug, Clone)]
pub struct MetricsSnapshot {
    pub received_high: u64,
    pub received_normal: u64,
    pub received_low: u64,
    pub received_invalid: u64,
    pub committed_high: u64,
    pub committed_normal: u64,
    pub committed_low: u64,
    pub dropped_high: u64,
    pub dropped_normal: u64,
    pub dropped_low: u64,
    pub errors_high: u64,
    pub errors_normal: u64,
    pub errors_low: u64,
    pub dlq_sent: u64,
    pub mqtt_reconnects: u64,
    pub batches_high: u64,
    pub batches_normal: u64,
    pub batches_low: u64,
}

impl Metrics {
    /// The counters with `received_p` of `priority` advanced by one.
    pub open spec fn after_received(self, priority: Priority) -> Metrics {
        match priority {
            Priority::High => Metrics { received_high: self.received_high.wrapping_add(1), ..self },
            Priority::Normal => Metrics { received_normal: self.received_normal.wrapping_add(1), ..self },
            Priority::Low => Metrics { received_low: self.received_low.wrapping_add(1), ..self },
        }
    }

    /// The counters with `dropped_p` of `priority` advanced by one.
    pub open spec fn after_dropped(self, priority: Priority) -> Metrics {
        match priority {
            Priority::High => Metrics { dropped_high: self.dropped_high.wrapping_add(1), ..self },
            Priority::Normal => Metrics { dropped_normal: self.dropped_normal.wrapping_add(1), ..self },
            Priority::Low => Metrics { dropped_low: self.dropped_low.wrapping_add(1), ..self },
        }
    }

    /// The counters with `committed_p` of `priority` advanced by `n`.
    pub open spec fn after_committed(self, priority: Priority, n: u64) -> Metrics {
        match priority {
            Priority::High => Metrics { committed_high: self.committed_high.wrapping_add(n), ..self },
            Priority::Normal => Metrics { committed_normal: self.committed_normal.wrapping_add(n), ..self },
            Priority::Low => Metrics { committed_low: self.committed_low.wrapping_add(n), ..self },
        }
    }

    /// The counters with `errors_p` of `priority` advanced by one.
    pub open spec fn after_error(self, priority: Priority) -> Metrics {
        match priority {
            Priority::High => Metrics { errors_high: self.errors_high.wrapping_add(1), ..self },
            Priority::Normal => Metrics { errors_normal: self.errors_normal.wrapping_add(1), ..self },
            Priority::Low => Metrics { errors_low: self.errors_low.wrapping_add(1), ..self },
        }
    }

    /// The counters with `batches_p` of `priority` advanced by one.
    pub open spec fn after_batch(self, priority: Priority) -> Metrics {
        match priority {
            Priority::High => Metrics { batches_high: self.batches_high.wrapping_add(1), ..self },
            Priority::Normal => Metrics { batches_normal: self.batches_normal.wrapping_add(1), ..self },
            Priority::Low => Metrics { batches_low: self.batches_low.wrapping_add(1), ..self },
        }
    }

    /// The snapshot that holds the current value of every counter.
    pub open spec fn snapshot_spec(self) -> MetricsSnapshot {
        MetricsSnapshot {
            received_high: self.received_high,
            received_normal: self.received_normal,
            received_low: self.received_low,
            received_invalid: self.received_invalid,
            committed_high: self.committed_high,
            committed_normal: self.committed_normal,
            committed_low: self.committed_low,
            dropped_high: self.dropped_high,
            dropped_normal: self.dropped_normal,
            dropped_low: self.dropped_low,
            errors_high: self.errors_high,
            errors_normal: self.errors_normal,
            errors_low: self.errors_low,
            dlq_sent: self.dlq_sent,
            mqtt_reconnects: self.mqtt_reconnects,
            batches_high: self.batches_high,
            batches_normal: self.batches_normal,
            batches_low: self.batches_low,
        }
    }

    /// Whether every counter is zero.
    pub open spec fn is_zero(self) -> bool {
        &&& self.received_high == 0
        &&& self.received_normal == 0
        &&& self.received_low == 0
        &&& self.received_invalid == 0
        &&& self.committed_high == 0
        &&& self.committed_normal == 0
        &&& self.committed_low == 0
        &&& self.dropped_high == 0
        &&& self.dropped_normal == 0
        &&& self.dropped_low == 0
        &&& self.errors_high == 0
        &&& self.errors_normal == 0
        &&& self.errors_low == 0
        &&& self.dlq_sent == 0
        &&& self.mqtt_reconnects == 0
        &&& self.batches_high == 0
        &&& self.batches_normal == 0
        &&& self.batches_low == 0
    }

    /// All counters at zero.
    pub fn new() -> (m: Metrics)
        ensures
            m.is_zero(),
    {
        Metrics {
            received_high: 0,
            received_normal: 0,
            received_low: 0,
            received_invalid: 0,
            committed_high: 0,
            committed_normal: 0,
            committed_low: 0,
            dropped_high: 0,
            dropped_normal: 0,
            dropped_low: 0,
            errors_high: 0,
            errors_normal: 0,
            errors_low: 0,
            dlq_sent: 0,
            mqtt_reconnects: 0,
            batches_high: 0,
            batches_normal: 0,
            batches_low: 0,
        }
    }

    /// Counts one message received with `priority`.
    pub fn inc_received(&mut self, priority: Priority)
        ensures
            *final(self) == old(self).after_received(priority),
    {
        match priority {
            Priority::High => self.received_high = self.received_high.wrapping_add(1),
            Priority::Normal => self.received_normal = self.received_normal.wrapping_add(1),
            Priority::Low => self.received_low = self.received_low.wrapping_add(1),
        }
    }

    /// Counts one message whose topic or payload could not be used.
    pub fn inc_invalid(&mut self)
        ensures
            *final(self) == (Metrics { received_invalid: old(self).received_invalid.wrapping_add(1), ..*old(self) }),
    {
        self.received_invalid = self.received_invalid.wrapping_add(1);
    }

    /// Counts one message of `priority` dropped because its queue was full.
    pub fn inc_dropped(&mut self, priority: Priority)
        ensures
            *final(self) == old(self).after_dropped(priority),
    {
        match priority {
            Priority::High => self.dropped_high = self.dropped_high.wrapping_add(1),
            Priority::Normal => self.dropped_normal = self.dropped_normal.wrapping_add(1),
            Priority::Low => self.dropped_low = self.dropped_low.wrapping_add(1),
        }
    }

    /// Counts `n` messages of `priority` committed to the database.
    pub fn add_committed(&mut self, priority: Priority, n: u64)
        ensures
            *final(self) == old(self).after_committed(priority, n),
    {
        match priority {
            Priority::High => self.committed_high = self.committed_high.wrapping_add(n),
            Priority::Normal => self.committed_normal = self.committed_normal.wrapping_add(n),
            Priority::Low => self.committed_low = self.committed_low.wrapping_add(n),
        }
    }

    /// Counts one failed batch of `priority`.
    pub fn inc_error(&mut self, priority: Priority)
        ensures
            *final(self) == old(self).after_error(priority),
    {
        match priority {
            Priority::High => self.errors_high = self.errors_high.wrapping_add(1),
            Priority::Normal => self.errors_normal = self.errors_normal.wrapping_add(1),
            Priority::Low => self.errors_low = self.errors_low.wrapping_add(1),
        }
    }

    /// Counts one committed batch of `priority`.
    pub fn inc_batch(&mut self, priority: Priority)
        ensures
            *final(self) == old(self).after_batch(priority),
    {
        match priority {
            Priority::High => self.batches_high = self.batches_high.wrapping_add(1),
            Priority::Normal => self.batches_normal = self.batches_normal.wrapping_add(1),
            Priority::Low => self.batches_low = self.batches_low.wrapping_add(1),
        }
    }

    /// Counts one publication to the dead-letter queue.
    pub fn inc_dlq_sent(&mut self)
        ensures
            *final(self) == (Metrics { dlq_sent: old(self).dlq_sent.wrapping_add(1), ..*old(self) }),
    {
        self.dlq_sent = self.dlq_sent.wrapping_add(1);
    }

    /// Counts one (re)connection to the broker.
    pub fn inc_mqtt_reconnect(&mut self)
        ensures
            *final(self) == (Metrics { mqtt_reconnects: old(self).mqtt_reconnects.wrapping_add(1), ..*old(self) }),
    {
        self.mqtt_reconnects = self.mqtt_reconnects.wrapping_add(1);
    }

    /// The current value of every counter.
    pub fn snapshot(&self) -> (s: MetricsSnapshot)
        ensures
            s == self.snapshot_spec(),
    {
        MetricsSnapshot {
            received_high: self.received_high,
            received_normal: self.received_normal,
            received_low: self.received_low,
            received_invalid: self.received_invalid,
            committed_high: self.committed_high,
            committed_normal: self.committed_normal,
            committed_low: self.committed_low,
            dropped_high: self.dropped_high,
            dropped_normal: self.dropped_normal,
            dropped_low: self.dropped_low,
            errors_high: self.errors_high,
            errors_normal: self.errors_normal,
            errors_low: self.errors_low,
            dlq_sent: self.dlq_sent,
            mqtt_reconnects: self.mqtt_reconnects,
            batches_high: self.batches_high,
            batches_normal: self.batches_normal,
            batches_low: self.batches_low,
        }
    }
}

/// `n / d` rounded to the nearest integer, ties to the even one (as float
/// formatting with a fixed number of decimals rounds).
pub open spec fn round_half_even(n: nat, d: nat) -> nat
    recommends
        d > 0,
{
    let q = n / d;
    let r = n % d;
    if 2 * r > d {
        q + 1
    } else if 2 * r < d {
        q
    } else if q % 2 == 0 {
        q
    } else {
        q + 1
    }
}

/// `n / d` rounded to the nearest integer, ties to even.
pub fn div_round_half_even(n: u128, d: u128) -> (q: u128)
    requires
        d > 0,
        n / d < u128::MAX,
    ensures
        q as nat == round_half_even(n as nat, d as nat),
{
    let q = n / d;
    let r = n % d;
    assert(r < d);
    let twice: u128 = if r > (u128::MAX / 2) { u128::MAX } else { 2 * r };
    if r > u128::MAX / 2 {
        assert(2 * r > d);
        q + 1
    } else if twice > d {
        q + 1
    } else if twice < d {
        q
    } else if q % 2 == 0 {
        q
    } else {
        q + 1
    }
}

/// A duration, in nanoseconds, no shorter than one millisecond.
pub open spec fn clamped_nanos(nanos: u64) -> nat {
    if nanos < 1_000_000 { 1_000_000 } else { nanos as nat }
}

/// `q` tenths written with one decimal, such as `12.5`.
pub open spec fn tenths(q: nat) -> Seq<char> {
    decimal(q / 10) + "."@ + decimal(q % 10)
}

/// A JSON member holding the high, normal and low counters of a group.
pub open spec fn group_json(name: Seq<char>, h: u64, n: u64, l: u64) -> Seq<char> {
    "\""@ + name + "\":{\"high\":"@ + decimal(h as nat) + ",\"normal\":"@ + decimal(n as nat) + ",\"low\":"@
        + decimal(l as nat) + "}"@
}

/// Appends the group member `name` to `s`.
fn push_group(s: &mut String, name: &str, h: u64, n: u64, l: u64)
    ensures
        final(s)@ == old(s)@ + group_json(name@, h, n, l),
{
    push_str(s, "\"");
    push_str(s, name);
    push_str(s, "\":{\"high\":");
    push_decimal(s, h as u128);
    push_str(s, ",\"normal\":");
    push_decimal(s, n as u128);
    push_str(s, ",\"low\":");
    push_decimal(s, l as u128);
    push_str(s, "}");
    assert(s@ =~= old(s)@ + group_json(name@, h, n, l));
}

/// Whether `a + b + c` fits in a `u64`.
fn sum3_fits(a: u64, b: u64, c: u64) -> (r: bool)
    ensures
        r == (a + b + c <= u64::MAX),
{
    match a.checked_add(b) {
        Some(ab) => ab.checked_add(c).is_some(),
        None => false,
    }
}

impl MetricsSnapshot {
    /// Whether the per-priority sums of every group fit in a `u64`.
    pub open spec fn sums_fit(self) -> bool {
        &&& self.received_high + self.received_normal + self.received_low <= u64::MAX
        &&& self.committed_high + self.committed_normal + self.committed_low <= u64::MAX
        &&& self.dropped_high + self.dropped_normal + self.dropped_low <= u64::MAX
        &&& self.errors_high + self.errors_normal + self.errors_low <= u64::MAX
    }

    /// Whether the per-priority sums of every group fit in a `u64` (see
    /// [`Self::sums_fit`]).
    pub fn totals_fit(&self) -> (b: bool)
        ensures
            b == self.sums_fit(),
    {
        sum3_fits(self.received_high, self.received_normal, self.received_low)
            && sum3_fits(self.committed_high, self.committed_normal, self.committed_low)
            && sum3_fits(self.dropped_high, self.dropped_normal, self.dropped_low)
            && sum3_fits(self.errors_high, self.errors_normal, self.errors_low)
    }

    pub fn total_received(&self) -> (t: u64)
        requires
            self.received_high + self.received_normal + self.received_low <= u64::MAX,
        ensures
            t == self.received_high + self.received_normal + self.received_low,
    {
        self.received_high + self.received_normal + self.received_low
    }

    pub fn total_committed(&self) -> (t: u64)
        requires
            self.committed_high + self.committed_normal + self.committed_low <= u64::MAX,
        ensures
            t == self.committed_high + self.committed_normal + self.committed_low,
    {
        self.committed_high + self.committed_normal + self.committed_low
    }

    pub fn total_dropped(&self) -> (t: u64)
        requires
            self.dropped_high + self.dropped_normal + self.dropped_low <= u64::MAX,
        ensures
            t == self.dropped_high + self.dropped_normal + self.dropped_low,
    {
        self.dropped_high + self.dropped_normal + self.dropped_low
    }

    pub fn total_errors(&self) -> (t: u64)
        requires
            self.errors_high + self.errors_normal + self.errors_low <= u64::MAX,
        ensures
            t == self.errors_high + self.errors_normal + self.errors_low,
    {
        self.errors_high + self.errors_normal + self.errors_low
    }

    /// Seconds of `nanos` (at least one millisecond), rounded, ties to even.
    pub open spec fn uptime_secs(nanos: u64) -> nat {
        round_half_even(clamped_nanos(nanos), 1_000_000_000)
    }

    /// Committed messages per second over `nanos`, in tenths, rounded, ties to even.
    pub open spec fn tps_tenths(self, nanos: u64) -> nat {
        round_half_even(
            ((self.committed_high + self.committed_normal + self.committed_low) * 10_000_000_000) as nat,
            clamped_nanos(nanos),
        )
    }

    /// The JSON document published on the metrics topic.
    pub open spec fn json_spec(self, worker_id: Seq<char>, nanos: u64) -> Seq<char> {
        "{\"worker_id\":\""@ + worker_id + "\",\"uptime_s\":"@ + decimal(Self::uptime_secs(nanos))
            + ",\"tps\":"@ + tenths(self.tps_tenths(nanos)) + ",\"received\":{\"high\":"@
            + decimal(self.received_high as nat) + ",\"normal\":"@ + decimal(self.received_normal as nat)
            + ",\"low\":"@ + decimal(self.received_low as nat) + ",\"invalid\":"@ + decimal(
            self.received_invalid as nat,
        ) + "},"@ + group_json("committed"@, self.committed_high, self.committed_normal, self.committed_low)
            + ","@ + group_json("dropped"@, self.dropped_high, self.dropped_normal, self.dropped_low) + ","@
            + group_json("errors"@, self.errors_high, self.errors_normal, self.errors_low) + ","@
            + group_json("batches"@, self.batches_high, self.batches_normal, self.batches_low)
            + ",\"dlq_sent\":"@ + decimal(self.dlq_sent as nat) + ",\"mqtt_reconnects\":"@ + decimal(
            self.mqtt_reconnects as nat,
        ) + "}"@
    }

    /// Serializes the snapshot as the JSON published on the metrics topic,
    /// with the worker id, the uptime `uptime_nanos` in whole seconds and the
    /// committed messages per second with one decimal.
    #[verifier::spinoff_prover]
    pub fn to_json(&self, worker_id: &str, uptime_nanos: u64) -> (j: String)
        requires
            self.committed_high + self.committed_normal + self.committed_low <= u64::MAX,
        ensures
            j@ == self.json_spec(worker_id@, uptime_nanos),
    {
        let total_committed = self.total_committed();
        let ns: u128 = if uptime_nanos < 1_000_000 { 1_000_000 } else { uptime_nanos as u128 };
        let secs = div_round_half_even(ns, 1_000_000_000);
        assert((total_committed as u128) * 10_000_000_000 <= u64::MAX * 10_000_000_000);
        let tps = div_round_half_even((total_committed as u128) * 10_000_000_000, ns);
        let mut s = String::new();
        push_str(&mut s, "{\"worker_id\":\"");
        push_str(&mut s, worker_id);
        push_str(&mut s, "\",\"uptime_s\":");
        push_decimal(&mut s, secs);
        push_str(&mut s, ",\"tps\":");
        push_decimal(&mut s, tps / 10);
        push_str(&mut s, ".");
        push_decimal(&mut s, tps % 10);
        push_str(&mut s, ",\"received\":{\"high\":");
        push_decimal(&mut s, self.received_high as u128);
        push_str(&mut s, ",\"normal\":");
        push_decimal(&mut s, self.received_normal as u128);
        push_str(&mut s, ",\"low\":");
        push_decimal(&mut s, self.received_low as u128);
        push_str(&mut s, ",\"invalid\":");
        push_decimal(&mut s, self.received_invalid as u128);
        push_str(&mut s, "},");
        let ghost head = s@;
        push_group(&mut s, "committed", self.committed_high, self.committed_normal, self.committed_low);
        push_str(&mut s, ",");
        push_group(&mut s, "dropped", self.dropped_high, self.dropped_normal, self.dropped_low);
        push_str(&mut s, ",");
        push_group(&mut s, "errors", self.errors_high, self.errors_normal, self.errors_low);
        push_str(&mut s, ",");
        push_group(&mut s, "batches", self.batches_high, self.batches_normal, self.batches_low);
        push_str(&mut s, ",\"dlq_sent\":");
        push_decimal(&mut s, self.dlq_sent as u128);
        push_str(&mut s, ",\"mqtt_reconnects\":");
        push_decimal(&mut s, self.mqtt_reconnects as u128);
        push_str(&mut s, "}");
        assert(s@ =~= self.json_spec(worker_id@, uptime_nanos));
        s
    }
}


/// Whether `part` occurs in `doc`.
pub open spec fn has_part(doc: Seq<char>, part: Seq<char>) -> bool {
    exists|a: Seq<char>, b: Seq<char>| doc == a + part + b
}

/// Every member of the metrics document carries the counter of its own name:
/// under `received` the received counters of high, normal and low priority
/// and the invalid ones; under `committed`, `dropped`, `errors` and
/// `batches` the counters of that kind for high, normal and low priority, in
/// that order of keys; `dlq_sent` and `mqtt_reconnects` their own counters;
/// and the document opens with the worker id.
pub proof fn lemma_json_members(s: MetricsSnapshot, worker_id: Seq<char>, nanos: u64)
    ensures
        ({
            let doc = s.json_spec(worker_id, nanos);
            &&& doc.take(("{\"worker_id\":\""@ + worker_id + "\",\"uptime_s\":"@).len() as int) == "{\"worker_id\":\""@
                + worker_id + "\",\"uptime_s\":"@
            &&& has_part(
                doc,
                ",\"received\":{\"high\":"@ + decimal(s.received_high as nat) + ",\"normal\":"@ + decimal(
                    s.received_normal as nat,
                ) + ",\"low\":"@ + decimal(s.received_low as nat) + ",\"invalid\":"@ + decimal(
                    s.received_invalid as nat,
                ) + "},"@,
            )
            &&& has_part(
                doc,
                "\""@ + "committed"@ + "\":{\"high\":"@ + decimal(s.committed_high as nat) + ",\"normal\":"@
                    + decimal(s.committed_normal as nat) + ",\"low\":"@ + decimal(s.committed_low as nat) + "}"@,
            )
            &&& has_part(
                doc,
                "\""@ + "dropped"@ + "\":{\"high\":"@ + decimal(s.dropped_high as nat) + ",\"normal\":"@
                    + decimal(s.dropped_normal as nat) + ",\"low\":"@ + decimal(s.dropped_low as nat) + "}"@,
            )
            &&& has_part(
                doc,
                "\""@ + "errors"@ + "\":{\"high\":"@ + decimal(s.errors_high as nat) + ",\"normal\":"@
                    + decimal(s.errors_normal as nat) + ",\"low\":"@ + decimal(s.errors_low as nat) + "}"@,
            )
            &&& has_part(
                doc,
                "\""@ + "batches"@ + "\":{\"high\":"@ + decimal(s.batches_high as nat) + ",\"normal\":"@
                    + decimal(s.batches_normal as nat) + ",\"low\":"@ + decimal(s.batches_low as nat) + "}"@,
            )
            &&& has_part(
                doc,
                ",\"dlq_sent\":"@ + decimal(s.dlq_sent as nat) + ",\"mqtt_reconnects\":"@ + decimal(
                    s.mqtt_reconnects as nat,
                ) + "}"@,
            )
        }),
{
    let doc = s.json_spec(worker_id, nanos);
    let head = "{\"worker_id\":\""@ + worker_id + "\",\"uptime_s\":"@;
    let up = decimal(MetricsSnapshot::uptime_secs(nanos)) + ",\"tps\":"@ + tenths(s.tps_tenths(nanos));
    let rec = ",\"received\":{\"high\":"@ + decimal(s.received_high as nat) + ",\"normal\":"@ + decimal(
        s.received_normal as nat,
    ) + ",\"low\":"@ + decimal(s.received_low as nat) + ",\"invalid\":"@ + decimal(s.received_invalid as nat)
        + "},"@;
    let c = group_json("committed"@, s.committed_high, s.committed_normal, s.committed_low);
    let d = group_json("dropped"@, s.dropped_high, s.dropped_normal, s.dropped_low);
    let e = group_json("errors"@, s.errors_high, s.errors_normal, s.errors_low);
    let bt = group_json("batches"@, s.batches_high, s.batches_normal, s.batches_low);
    let tail = ",\"dlq_sent\":"@ + decimal(s.dlq_sent as nat) + ",\"mqtt_reconnects\":"@ + decimal(
        s.mqtt_reconnects as nat,
    ) + "}"@;
    let comma = ","@;
    assert(doc =~= head + up + rec + c + comma + d + comma + e + comma + bt + tail);
    lemma_parts(head, up, rec, c, comma, d, e, bt, tail);
}

/// Each of the pieces of a document laid out as `head up rec c , d , e , bt
/// tail` occurs in it, and `head` begins it.
proof fn lemma_parts(
    head: Seq<char>,
    up: Seq<char>,
    rec: Seq<char>,
    c: Seq<char>,
    comma: Seq<char>,
    d: Seq<char>,
    e: Seq<char>,
    bt: Seq<char>,
    tail: Seq<char>,
)
    ensures
        ({
            let doc = head + up + rec + c + comma + d + comma + e + comma + bt + tail;
            &&& doc.take(head.len() as int) == head
            &&& has_part(doc, rec)
            &&& has_part(doc, c)
            &&& has_part(doc, d)
            &&& has_part(doc, e)
            &&& has_part(doc, bt)
            &&& has_part(doc, tail)
        }),
{
    let doc = head + up + rec + c + comma + d + comma + e + comma + bt + tail;
    assert(doc.take(head.len() as int) =~= head);
    assert(doc =~= (head + up) + rec + (c + comma + d + comma + e + comma + bt + tail));
    assert(doc =~= (head + up + rec) + c + (comma + d + comma + e + comma + bt + tail));
    assert(doc =~= (head + up + rec + c + comma) + d + (comma + e + comma + bt + tail));
    assert(doc =~= (head + up + rec + c + comma + d + comma) + e + (comma + bt + tail));
    assert(doc =~= (head + up + rec + c + comma + d + comma + e + comma) + bt + tail);
    assert(doc =~= (head + up + rec + c + comma + d + comma + e + comma + bt) + tail + Seq::<char>::empty());
}

impl Metrics {
    /// The human-readable statistics line for an elapsed time of `nanos`.
    pub open spec fn stats_line_spec(self, nanos: u64) -> Seq<char> {
        let s = self.snapshot_spec();
        "[metrics] elapsed="@ + decimal(MetricsSnapshot::uptime_secs(nanos)) + "s  received="@ + decimal(
            (s.received_high + s.received_normal + s.received_low) as nat,
        ) + " committed="@ + decimal((s.committed_high + s.committed_normal + s.committed_low) as nat)
            + " dropped="@ + decimal((s.dropped_high + s.dropped_normal + s.dropped_low) as nat)
            + " errors="@ + decimal((s.errors_high + s.errors_normal + s.errors_low) as nat)
            + " invalid="@ + decimal(s.received_invalid as nat) + " dlq="@ + decimal(s.dlq_sent as nat)
            + " tps="@ + decimal(
            round_half_even(
                ((s.committed_high + s.committed_normal + s.committed_low) * 1_000_000_000) as nat,
                clamped_nanos(nanos),
            ),
        ) + "/s | high: recv="@ + decimal(s.received_high as nat) + " commit="@ + decimal(
            s.committed_high as nat,
        ) + " drop="@ + decimal(s.dropped_high as nat) + "  | normal: recv="@ + decimal(
            s.received_normal as nat,
        ) + " commit="@ + decimal(s.committed_normal as nat) + " drop="@ + decimal(
            s.dropped_normal as nat,
        ) + "  | low: recv="@ + decimal(s.received_low as nat) + " commit="@ + decimal(
            s.committed_low as nat,
        ) + " drop="@ + decimal(s.dropped_low as nat)
    }

    /// The statistics line that the worker prints for an elapsed time of
    /// `elapsed_nanos`: totals, invalid and dead-letter counts, committed
    /// messages per second, and the counters of each priority.
    pub fn stats_line(&self, elapsed_nanos: u64) -> (line: String)
        requires
            self.snapshot_spec().sums_fit(),
        ensures
            line@ == self.stats_line_spec(elapsed_nanos),
    {
        let s = self.snapshot();
        let ns: u128 = if elapsed_nanos < 1_000_000 { 1_000_000 } else { elapsed_nanos as u128 };
        let secs = div_round_half_even(ns, 1_000_000_000);
        let total_committed = s.total_committed();
        let tps = div_round_half_even((total_committed as u128) * 1_000_000_000, ns);
        let mut l = String::new();
        push_str(&mut l, "[metrics] elapsed=");
        push_decimal(&mut l, secs);
        push_str(&mut l, "s  received=");
        push_decimal(&mut l, s.total_received() as u128);
        push_str(&mut l, " committed=");
        push_decimal(&mut l, total_committed as u128);
        push_str(&mut l, " dropped=");
        push_decimal(&mut l, s.total_dropped() as u128);
        push_str(&mut l, " errors=");
        push_decimal(&mut l, s.total_errors() as u128);
        push_str(&mut l, " invalid=");
        push_decimal(&mut l, s.received_invalid as u128);
        push_str(&mut l, " dlq=");
        push_decimal(&mut l, s.dlq_sent as u128);
        push_str(&mut l, " tps=");
        push_decimal(&mut l, tps);
        push_str(&mut l, "/s | high: recv=");
        push_decimal(&mut l, s.received_high as u128);
        push_str(&mut l, " commit=");
        push_decimal(&mut l, s.committed_high as u128);
        push_str(&mut l, " drop=");
        push_decimal(&mut l, s.dropped_high as u128);
        push_str(&mut l, "  | normal: recv=");
        push_decimal(&mut l, s.received_normal as u128);
        push_str(&mut l, " commit=");
        push_decimal(&mut l, s.committed_normal as u128);
        push_str(&mut l, " drop=");
        push_decimal(&mut l, s.dropped_normal as u128);
        push_str(&mut l, "  | low: recv=");
        push_decimal(&mut l, s.received_low as u128);
        push_str(&mut l, " commit=");
        push_decimal(&mut l, s.committed_low as u128);
        push_str(&mut l, " drop=");
        push_decimal(&mut l, s.dropped_low as u128);
        assert(l@ =~= self.stats_line_spec(elapsed_nanos));
        l
    }
}

#[verifier::external_type_specification]
#[verifier::external_body]
pub struct ExInstant(std::time::Instant);

/// The current instant (`std::time::Instant::now`).
#[verifier::external_body]
fn instant_now() -> std::time::Instant {
    std::time::Instant::now()
}

/// The time elapsed since `start` (`Instant::elapsed`); it depends on the
/// clock, so nothing is promised of it.
#[verifier::external_body]
fn instant_elapsed(start: &std::time::Instant) -> std::time::Duration {
    start.elapsed()
}

/// The whole nanoseconds of `d` (`Duration::as_nanos`).
#[verifier::external_body]
fn duration_nanos(d: &std::time::Duration) -> u128 {
    d.as_nanos()
}

/// Nanoseconds elapsed since `start`, `u64::MAX` when more have passed than
/// a `u64` holds.
fn nanos_since(start: &std::time::Instant) -> u64 {
    let n = duration_nanos(&instant_elapsed(start));
    if n > u64::MAX as u128 {
        u64::MAX
    } else {
        n as u64
    }
}

/// Writes the statistics line for the time elapsed since it was made.
pub struct MetricsPrinter {
    start: std::time::Instant,
}

impl MetricsPrinter {
    /// A printer that counts time from now.
    pub fn new() -> MetricsPrinter {
        MetricsPrinter { start: instant_now() }
    }

    /// The statistics line of `metrics` for the time elapsed since the
    /// printer was made (see [`Metrics::stats_line`]).
    pub fn print_now(&self, metrics: &Metrics) -> (line: String)
        requires
            metrics.snapshot_spec().sums_fit(),
        ensures
            exists|nanos: u64| line@ == #[trigger] metrics.stats_line_spec(nanos),
    {
        let nanos = nanos_since(&self.start);
        metrics.stats_line(nanos)
    }
}

/// `inc_received` adds exactly one to the received total and leaves the
/// committed, dropped and invalid counters as they were (as long as no
/// received counter is at `u64::MAX`).
pub proof fn lemma_inc_received_adds_one(m: Metrics, priority: Priority)
    requires
        m.received_high < u64::MAX,
        m.received_normal < u64::MAX,
        m.received_low < u64::MAX,
    ensures
        m.after_received(priority).received_high + m.after_received(priority).received_normal
            + m.after_received(priority).received_low == m.received_high + m.received_normal
            + m.received_low + 1,
        m.after_received(priority).committed_high == m.committed_high,
        m.after_received(priority).committed_normal == m.committed_normal,
        m.after_received(priority).committed_low == m.committed_low,
        m.after_received(priority).dropped_high == m.dropped_high,
        m.after_received(priority).dropped_normal == m.dropped_normal,
        m.after_received(priority).dropped_low == m.dropped_low,
        m.after_received(priority).received_invalid == m.received_invalid,
{
}

/// `add_committed` adds exactly `n` to the committed total (as long as the
/// counter it changes does not wrap).
pub proof fn lemma_add_committed_adds_n(m: Metrics, priority: Priority, n: u64)
    requires
        m.committed_high + n <= u64::MAX,
        m.committed_normal + n <= u64::MAX,
        m.committed_low + n <= u64::MAX,
    ensures
        m.after_committed(priority, n).committed_high + m.after_committed(priority, n).committed_normal
            + m.after_committed(priority, n).committed_low == m.committed_high + m.committed_normal
            + m.committed_low + n,
{
}

/// A snapshot's totals are the sums of the counters it was taken from.
pub proof fn lemma_snapshot_totals(m: Metrics)
    ensures
        m.snapshot_spec().received_high + m.snapshot_spec().received_normal + m.snapshot_spec().received_low
            == m.received_high + m.received_normal + m.received_low,
        m.snapshot_spec().committed_high + m.snapshot_spec().committed_normal
            + m.snapshot_spec().committed_low == m.committed_high + m.committed_normal + m.committed_low,
        m.snapshot_spec().dropped_high + m.snapshot_spec().dropped_normal + m.snapshot_spec().dropped_low
            == m.dropped_high + m.dropped_normal + m.dropped_low,
        m.snapshot_spec().errors_high + m.snapshot_spec().errors_normal + m.snapshot_spec().errors_low
            == m.errors_high + m.errors_normal + m.errors_low,
{
}

} // verus!
