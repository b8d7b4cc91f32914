//! Worker configuration, read from named values (the process environment in
//! the worker), with development defaults for every entry.
use vstd::prelude::*;
use crate::parse::{
    flag_or, flag_or_spec, non_empty, non_empty_spec, number_or, number_or_spec, parse_unsigned,
    parse_unsigned_spec, strip_all, strip_all_spec, text_or, text_or_else, text_or_spec, trim_chars,
    trim_spec,
};
use crate::text::{chars_of, push_chars, push_str, string_from_chars};
use crate::topic::{split_chars, split_on, Priority};

verus! {

/// Worker configuration.
#[derive(Debug, Clone)]
pub struct Config {
    /// Broker URL: `tcp://host:port` or `ssl://host:port`.
    pub mqtt_broker: String,
    /// MQTT client id; unique per worker instance.
    pub mqtt_client_id: String,
    /// Subscribed topics.
    pub mqtt_topics: Vec<String>,
    /// QoS: 0, 1 or 2.
    pub mqtt_qos: u8,
    pub mqtt_username: Option<String>,
    pub mqtt_password: Option<String>,
    /// Worker id; it appears in the control topics `worker/{worker_id}/health`
    /// and `worker/{worker_id}/metrics`.
    pub worker_id: String,
    /// Path of the SQLite file; its parent directory must exist.
    pub sqlite_db: String,
    /// How long a writer waits for the write lock, in milliseconds.
    pub busy_timeout_ms: i32,
    pub batch_size_high: usize,
    pub batch_size_normal: usize,
    pub batch_size_low: usize,
    pub flush_ms_high: u64,
    pub flush_ms_normal: u64,
    pub flush_ms_low: u64,
    /// Capacity of each in-memory queue between subscriber and inserter.
    pub channel_cap_high: usize,
    pub channel_cap_normal: usize,
    pub channel_cap_low: usize,
    /// Whether failed messages go to `db/dlq/{tenant}/{database}/{entity}/{op}`.
    pub dlq_enabled: bool,
    /// Retries before a message goes to the dead-letter queue.
    pub dlq_max_retries: u32,
    /// Period of the health publication, in milliseconds.
    pub health_interval_ms: u64,
    /// Period of the metrics publication, in milliseconds.
    pub metrics_interval_ms: u64,
}

/// Batch, flush and queue settings of one priority.
#[derive(Debug, Clone, Copy, PartialEq, Eq, Structural)]
pub struct QueueSettings {
    pub batch_size: usize,
    pub flush_ms: u64,
    pub channel_cap: usize,
}

/// The position of the last `c` in `s`, if any.
pub open spec fn last_index_of(s: Seq<char>, c: char) -> Option<int>
    decreases s.len(),
{
    if s.len() == 0 {
        None
    } else if s.last() == c {
        Some(s.len() - 1)
    } else {
        last_index_of(s.drop_last(), c)
    }
}

/// The default broker port.
pub open spec fn default_port() -> nat {
    1883
}

/// Host and port of `s` (a broker address without scheme): the text before
/// the last `:` and the number after it (1883 where it is not a port
/// number); with no `:`, all of `s` and 1883.
pub open spec fn host_port_spec(s: Seq<char>) -> (Seq<char>, nat) {
    match last_index_of(s, ':') {
        Some(i) => (
            s.take(i),
            match parse_unsigned_spec(s.skip(i + 1), 65535) {
                Some(n) => n,
                None => default_port(),
            },
        ),
        None => (s, default_port()),
    }
}

/// The broker address without the `tcp://`, `ssl://` and `mqtt://` schemes,
/// removed in that order, each as often as it repeats.
pub open spec fn strip_worker_schemes(b: Seq<char>) -> Seq<char> {
    strip_all_spec(strip_all_spec(strip_all_spec(b, "tcp://"@), "ssl://"@), "mqtt://"@)
}

proof fn lemma_last_index_bounds(s: Seq<char>, c: char)
    ensures
        last_index_of(s, c) matches Some(i) ==> 0 <= i < s.len() && s[i] == c,
        last_index_of(s, c) is None ==> !s.contains(c),
    decreases s.len(),
{
    if s.len() > 0 {
        lemma_last_index_bounds(s.drop_last(), c);
        if s.last() != c && s.contains(c) {
            let j = choose|j: int| 0 <= j < s.len() && s[j] == c;
            assert(s.drop_last()[j] == c);
        }
    }
}

/// The position of the last `c` in `s`, if any.
fn rfind(s: &[char], c: char) -> (r: Option<usize>)
    ensures
        match r {
            Some(i) => last_index_of(s@, c) == Some(i as int),
            None => last_index_of(s@, c) is None,
        },
{
    let mut i: usize = s.len();
    assert(s@.take(s@.len() as int) =~= s@);
    while i > 0
        invariant
            i <= s@.len(),
            last_index_of(s@, c) == last_index_of(s@.take(i as int), c),
        decreases i,
    {
        let ghost pre = s@.take(i as int);
        assert(pre.last() == s@[i - 1]);
        if s[i - 1] == c {
            return Some(i - 1);
        }
        assert(pre.drop_last() =~= s@.take(i - 1));
        i = i - 1;
    }
    None
}

/// Splits a scheme-less broker address into host and port.
pub fn host_port(s: &[char]) -> (r: (String, u16))
    ensures
        r.0@ == host_port_spec(s@).0,
        r.1 as nat == host_port_spec(s@).1,
{
    match rfind(s, ':') {
        Some(colon) => {
            proof {
                lemma_last_index_bounds(s@, ':');
            }
            let mut host_chars: Vec<char> = Vec::new();
            let mut i: usize = 0;
            while i < colon
                invariant
                    colon < s@.len(),
                    i <= colon,
                    host_chars@ == s@.take(i as int),
                decreases colon - i,
            {
                host_chars.push(s[i]);
                i = i + 1;
                assert(host_chars@ =~= s@.take(i as int));
            }
            let mut port_chars: Vec<char> = Vec::new();
            let n: usize = s.len();
            assert(colon < n);
            let mut j: usize = colon + 1;
            while j < s.len()
                invariant
                    colon < j <= s@.len(),
                    port_chars@ == s@.subrange(colon + 1, j as int),
                decreases s@.len() - j,
            {
                port_chars.push(s[j]);
                j = j + 1;
                assert(port_chars@ =~= s@.subrange(colon + 1, j as int));
            }
            assert(port_chars@ =~= s@.skip(colon + 1));
            let port: u16 = match parse_unsigned(port_chars.as_slice(), 65535) {
                Some(n) => n as u16,
                None => 1883,
            };
            (string_from_chars(host_chars.as_slice()), port)
        },
        None => (string_from_chars(s), 1883),
    }
}

impl Config {
    /// Splits the broker URL into `(host, port)` for the MQTT client; accepts
    /// `tcp://host:port`, `ssl://host:port`, `host:port` and `host`.
    pub fn broker_host_port(&self) -> (r: (String, u16))
        ensures
            r.0@ == host_port_spec(strip_worker_schemes(self.mqtt_broker@)).0,
            r.1 as nat == host_port_spec(strip_worker_schemes(self.mqtt_broker@)).1,
    {
        let b = chars_of(self.mqtt_broker.as_str());
        let s1 = strip_all(b.as_slice(), "tcp://");
        let s2 = strip_all(s1.as_slice(), "ssl://");
        let s3 = strip_all(s2.as_slice(), "mqtt://");
        host_port(s3.as_slice())
    }

    /// The batch size, flush period and queue capacity of `priority`.
    pub fn queue_settings(&self, priority: Priority) -> (q: QueueSettings)
        ensures
            q == (match priority {
                Priority::High => QueueSettings {
                    batch_size: self.batch_size_high,
                    flush_ms: self.flush_ms_high,
                    channel_cap: self.channel_cap_high,
                },
                Priority::Normal => QueueSettings {
                    batch_size: self.batch_size_normal,
                    flush_ms: self.flush_ms_normal,
                    channel_cap: self.channel_cap_normal,
                },
                Priority::Low => QueueSettings {
                    batch_size: self.batch_size_low,
                    flush_ms: self.flush_ms_low,
                    channel_cap: self.channel_cap_low,
                },
            }),
    {
        match priority {
            Priority::High => QueueSettings {
                batch_size: self.batch_size_high,
                flush_ms: self.flush_ms_high,
                channel_cap: self.channel_cap_high,
            },
            Priority::Normal => QueueSettings {
                batch_size: self.batch_size_normal,
                flush_ms: self.flush_ms_normal,
                channel_cap: self.channel_cap_normal,
            },
            Priority::Low => QueueSettings {
                batch_size: self.batch_size_low,
                flush_ms: self.flush_ms_low,
                channel_cap: self.channel_cap_low,
            },
        }
    }
}

/// The trimmed, non-empty pieces of `pieces`, in order.
pub open spec fn trimmed_nonempty(pieces: Seq<Seq<char>>) -> Seq<Seq<char>>
    decreases pieces.len(),
{
    if pieces.len() == 0 {
        Seq::empty()
    } else {
        let r = trimmed_nonempty(pieces.drop_last());
        let t = trim_spec(pieces.last());
        if t.len() > 0 {
            r.push(t)
        } else {
            r
        }
    }
}

/// The pieces of `s` between commas, each trimmed of whitespace, empty
/// pieces left out.
pub open spec fn topic_list_spec(s: Seq<char>) -> Seq<Seq<char>> {
    trimmed_nonempty(split_on(s, ','))
}

/// The comma-separated list `raw` as topics: each trimmed, empty ones left out.
pub fn parse_topic_list(raw: &str) -> (topics: Vec<String>)
    ensures
        topics@.len() == topic_list_spec(raw@).len(),
        forall|i: int| 0 <= i < topics@.len() ==> #[trigger] topics@[i]@ == topic_list_spec(raw@)[i],
{
    let v = chars_of(raw);
    let pieces = split_chars(&v, ',');
    let ghost all = split_on(v@, ',');
    let mut topics: Vec<String> = Vec::new();
    let mut k: usize = 0;
    while k < pieces.len()
        invariant
            k <= pieces@.len(),
            pieces@.len() == all.len(),
            forall|j: int| 0 <= j < pieces@.len() ==> #[trigger] pieces@[j]@ == all[j],
            topics@.len() == trimmed_nonempty(all.take(k as int)).len(),
            forall|j: int|
                0 <= j < topics@.len() ==> #[trigger] topics@[j]@ == trimmed_nonempty(all.take(k as int))[j],
        decreases pieces@.len() - k,
    {
        let t = trim_chars(pieces[k].as_slice());
        assert(all.take(k + 1).drop_last() =~= all.take(k as int));
        assert(all.take(k + 1).last() == all[k as int]);
        if t.len() > 0 {
            topics.push(string_from_chars(t.as_slice()));
        }
        k = k + 1;
    }
    assert(all.take(all.len() as int) =~= all);
    topics
}


/// The default client and worker id for `hostname`.
pub open spec fn worker_default_id(hostname: Seq<char>) -> Seq<char> {
    "ether-worker-"@ + hostname
}

/// The topics subscribed when `MQTT_TOPICS` is absent.
pub open spec fn default_topics() -> Seq<char> {
    "db/+/+/+/+/insert,db/+/+/+/+/insert_batch,db/+/+/+/+/upsert"@
}

impl Config {
    /// The configuration that the named values `vars` describe, on the host
    /// `hostname`; every absent or unusable entry takes its default.
    pub fn from_vars(vars: &Vec<(String, String)>, hostname: &str) -> (c: Config)
        ensures
            c.mqtt_broker@ == text_or_spec(vars@, "MQTT_BROKER"@, "tcp://localhost:1883"@),
            c.mqtt_client_id@ == text_or_spec(vars@, "MQTT_CLIENT_ID"@, worker_default_id(hostname@)),
            c.worker_id@ == text_or_spec(vars@, "WORKER_ID"@, worker_default_id(hostname@)),
            c.mqtt_topics@.len() == topic_list_spec(text_or_spec(vars@, "MQTT_TOPICS"@, default_topics())).len(),
            forall|i: int| 0 <= i < c.mqtt_topics@.len() ==> #[trigger] c.mqtt_topics@[i]@
                == topic_list_spec(text_or_spec(vars@, "MQTT_TOPICS"@, default_topics()))[i],
            c.mqtt_qos as nat == (if number_or_spec(vars@, "MQTT_QOS"@, u64::MAX as nat, 1) > 2 {
                2
            } else {
                number_or_spec(vars@, "MQTT_QOS"@, u64::MAX as nat, 1)
            }),
            match c.mqtt_username {
                Some(u) => non_empty_spec(vars@, "MQTT_USERNAME"@) == Some(u@),
                None => non_empty_spec(vars@, "MQTT_USERNAME"@) is None,
            },
            match c.mqtt_password {
                Some(p) => non_empty_spec(vars@, "MQTT_PASSWORD"@) == Some(p@),
                None => non_empty_spec(vars@, "MQTT_PASSWORD"@) is None,
            },
            c.sqlite_db@ == text_or_spec(vars@, "SQLITE_DB"@, "/var/lib/ether-worker/ingest.db"@),
            c.busy_timeout_ms == (number_or_spec(vars@, "SQLITE_BUSY_TIMEOUT_MS"@, u64::MAX as nat, 5000) as u64) as i32,
            c.batch_size_high as nat == number_or_spec(vars@, "BATCH_SIZE_HIGH"@, usize::MAX as nat, 100),
            c.batch_size_normal as nat == number_or_spec(vars@, "BATCH_SIZE_NORMAL"@, usize::MAX as nat, 500),
            c.batch_size_low as nat == number_or_spec(vars@, "BATCH_SIZE_LOW"@, usize::MAX as nat, 2000),
            c.flush_ms_high as nat == number_or_spec(vars@, "FLUSH_MS_HIGH"@, u64::MAX as nat, 50),
            c.flush_ms_normal as nat == number_or_spec(vars@, "FLUSH_MS_NORMAL"@, u64::MAX as nat, 200),
            c.flush_ms_low as nat == number_or_spec(vars@, "FLUSH_MS_LOW"@, u64::MAX as nat, 1000),
            c.channel_cap_high as nat == number_or_spec(vars@, "CHANNEL_CAP_HIGH"@, usize::MAX as nat, 10000),
            c.channel_cap_normal as nat == number_or_spec(vars@, "CHANNEL_CAP_NORMAL"@, usize::MAX as nat, 50000),
            c.channel_cap_low as nat == number_or_spec(vars@, "CHANNEL_CAP_LOW"@, usize::MAX as nat, 100000),
            c.dlq_enabled == flag_or_spec(vars@, "DLQ_ENABLED"@, true),
            c.dlq_max_retries == (number_or_spec(vars@, "DLQ_MAX_RETRIES"@, u64::MAX as nat, 3) as u64) as u32,
            c.health_interval_ms as nat == number_or_spec(vars@, "HEALTH_INTERVAL_MS"@, u64::MAX as nat, 30000),
            c.metrics_interval_ms as nat == number_or_spec(vars@, "METRICS_INTERVAL_MS"@, u64::MAX as nat, 10000),
    {
        let mut default_id = String::new();
        push_str(&mut default_id, "ether-worker-");
        push_str(&mut default_id, hostname);
        let mqtt_broker = text_or(vars, "MQTT_BROKER", "tcp://localhost:1883");
        let mqtt_client_id = text_or_else(vars, "MQTT_CLIENT_ID", default_id.clone());
        let worker_id = text_or_else(vars, "WORKER_ID", default_id);
        let topics_raw = text_or(
            vars,
            "MQTT_TOPICS",
            "db/+/+/+/+/insert,db/+/+/+/+/insert_batch,db/+/+/+/+/upsert",
        );
        let mqtt_topics = parse_topic_list(topics_raw.as_str());
        let qos_raw = number_or(vars, "MQTT_QOS", u64::MAX, 1);
        let mqtt_qos: u8 = if qos_raw > 2 { 2 } else { qos_raw as u8 };
        let mqtt_username = non_empty(vars, "MQTT_USERNAME");
        let mqtt_password = non_empty(vars, "MQTT_PASSWORD");
        let sqlite_db = text_or(vars, "SQLITE_DB", "/var/lib/ether-worker/ingest.db");
        let busy_raw = number_or(vars, "SQLITE_BUSY_TIMEOUT_MS", u64::MAX, 5000);
        let usize_max = usize::MAX as u64;
        Config {
            mqtt_broker,
            mqtt_client_id,
            mqtt_topics,
            mqtt_qos,
            mqtt_username,
            mqtt_password,
            worker_id,
            sqlite_db,
            busy_timeout_ms: busy_raw as i32,
            batch_size_high: number_or(vars, "BATCH_SIZE_HIGH", usize_max, 100) as usize,
            batch_size_normal: number_or(vars, "BATCH_SIZE_NORMAL", usize_max, 500) as usize,
            batch_size_low: number_or(vars, "BATCH_SIZE_LOW", usize_max, 2000) as usize,
            flush_ms_high: number_or(vars, "FLUSH_MS_HIGH", u64::MAX, 50),
            flush_ms_normal: number_or(vars, "FLUSH_MS_NORMAL", u64::MAX, 200),
            flush_ms_low: number_or(vars, "FLUSH_MS_LOW", u64::MAX, 1000),
            channel_cap_high: number_or(vars, "CHANNEL_CAP_HIGH", usize_max, 10000) as usize,
            channel_cap_normal: number_or(vars, "CHANNEL_CAP_NORMAL", usize_max, 50000) as usize,
            channel_cap_low: number_or(vars, "CHANNEL_CAP_LOW", usize_max, 100000) as usize,
            dlq_enabled: flag_or(vars, "DLQ_ENABLED", true),
            dlq_max_retries: number_or(vars, "DLQ_MAX_RETRIES", u64::MAX, 3) as u32,
            health_interval_ms: number_or(vars, "HEALTH_INTERVAL_MS", u64::MAX, 30000),
            metrics_interval_ms: number_or(vars, "METRICS_INTERVAL_MS", u64::MAX, 10000),
        }
    }
}

} // verus!
