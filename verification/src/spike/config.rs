//! Configuration of the single-queue worker, read from named values.
use vstd::prelude::*;
use crate::config::{host_port, host_port_spec, parse_topic_list, topic_list_spec};
use crate::parse::{number_or, number_or_spec, strip_all, strip_all_spec, text_or, text_or_else, text_or_spec};
use crate::text::{chars_of, decimal, push_decimal, push_str};

verus! {

/// Configuration of the single-queue worker.
#[derive(Debug, Clone)]
pub struct Config {
    pub broker_host: String,
    pub broker_port: u16,
    pub client_id: String,
    pub topics: Vec<String>,
    pub qos: u8,
    pub sqlite_db: String,
    pub batch_size: usize,
    pub flush_ms: u64,
}

/// The broker address without the `tcp://`, `mqtt://` and `ssl://` schemes,
/// removed in that order, each as often as it repeats.
pub open spec fn strip_spike_schemes(b: Seq<char>) -> Seq<char> {
    strip_all_spec(strip_all_spec(strip_all_spec(b, "tcp://"@), "mqtt://"@), "ssl://"@)
}

/// Splits `tcp://host:port` into `(host, port)`; the port is 1883 where it is
/// missing or is not a port number.
pub fn parse_broker(broker: &str) -> (r: (String, u16))
    ensures
        r.0@ == host_port_spec(strip_spike_schemes(broker@)).0,
        r.1 as nat == host_port_spec(strip_spike_schemes(broker@)).1,
{
    let b = chars_of(broker);
    let s1 = strip_all(b.as_slice(), "tcp://");
    let s2 = strip_all(s1.as_slice(), "mqtt://");
    let s3 = strip_all(s2.as_slice(), "ssl://");
    host_port(s3.as_slice())
}

/// The default client id of the process `pid`.
pub open spec fn spike_default_client_id(pid: nat) -> Seq<char> {
    "snr-spike-rust-"@ + decimal(pid)
}

impl Config {
    /// The configuration that `vars` describe, for the process `pid`; every
    /// absent or unusable entry takes its default.
    pub fn from_vars(vars: &Vec<(String, String)>, pid: u32) -> (c: Config)
        ensures
            c.broker_host@ == host_port_spec(
                strip_spike_schemes(text_or_spec(vars@, "MQTT_BROKER"@, "tcp://localhost:1883"@)),
            ).0,
            c.broker_port as nat == host_port_spec(
                strip_spike_schemes(text_or_spec(vars@, "MQTT_BROKER"@, "tcp://localhost:1883"@)),
            ).1,
            c.client_id@ == text_or_spec(vars@, "MQTT_CLIENT_ID"@, spike_default_client_id(pid as nat)),
            c.topics@.len() == topic_list_spec(text_or_spec(vars@, "MQTT_TOPICS"@, "benchmark/#"@)).len(),
            forall|i: int| 0 <= i < c.topics@.len() ==> #[trigger] c.topics@[i]@
                == topic_list_spec(text_or_spec(vars@, "MQTT_TOPICS"@, "benchmark/#"@))[i],
            c.qos as nat == number_or_spec(vars@, "MQTT_QOS"@, 255, 1),
            c.sqlite_db@ == text_or_spec(vars@, "SQLITE_DB"@, "/tmp/snr-spike-rust.db"@),
            c.batch_size as nat == number_or_spec(vars@, "BATCH_SIZE"@, usize::MAX as nat, 500),
            c.flush_ms as nat == number_or_spec(vars@, "FLUSH_MS"@, u64::MAX as nat, 200),
    {
        let broker = text_or(vars, "MQTT_BROKER", "tcp://localhost:1883");
        let (broker_host, broker_port) = parse_broker(broker.as_str());
        let mut default_id = String::new();
        push_str(&mut default_id, "snr-spike-rust-");
        push_decimal(&mut default_id, pid as u128);
        let client_id = text_or_else(vars, "MQTT_CLIENT_ID", default_id);
        let topics_raw = text_or(vars, "MQTT_TOPICS", "benchmark/#");
        let topics = parse_topic_list(topics_raw.as_str());
        let qos = number_or(vars, "MQTT_QOS", 255, 1) as u8;
        let sqlite_db = text_or(vars, "SQLITE_DB", "/tmp/snr-spike-rust.db");
        let batch_size = number_or(vars, "BATCH_SIZE", usize::MAX as u64, 500) as usize;
        let flush_ms = number_or(vars, "FLUSH_MS", u64::MAX, 200);
        Config { broker_host, broker_port, client_id, topics, qos, sqlite_db, batch_size, flush_ms }
    }
}

} // verus!
