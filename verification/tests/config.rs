use sqlite_native_runtime::config::{parse_topic_list, Config};
use sqlite_native_runtime::spike::config::{parse_broker, Config as SpikeConfig};
use sqlite_native_runtime::topic::Priority;

fn default_cfg() -> Config {
    Config {
        mqtt_broker: "tcp://localhost:1883".into(),
        mqtt_client_id: "test-worker".into(),
        mqtt_topics: vec!["db/+/+/+/+/insert".into()],
        mqtt_qos: 1,
        mqtt_username: None,
        mqtt_password: None,
        worker_id: "test-worker".into(),
        sqlite_db: "/tmp/test.db".into(),
        busy_timeout_ms: 5_000,
        batch_size_high: 100,
        batch_size_normal: 500,
        batch_size_low: 2_000,
        flush_ms_high: 50,
        flush_ms_normal: 200,
        flush_ms_low: 1_000,
        channel_cap_high: 10_000,
        channel_cap_normal: 50_000,
        channel_cap_low: 100_000,
        dlq_enabled: true,
        dlq_max_retries: 3,
        health_interval_ms: 30_000,
        metrics_interval_ms: 10_000,
    }
}

#[test]
fn broker_host_port_tcp_url() {
    let cfg = Config { mqtt_broker: "tcp://localhost:1883".into(), ..default_cfg() };
    assert_eq!(cfg.broker_host_port(), ("localhost".into(), 1883));
}

#[test]
fn broker_host_port_ssl_url() {
    let cfg = Config { mqtt_broker: "ssl://broker.example.com:8883".into(), ..default_cfg() };
    assert_eq!(cfg.broker_host_port(), ("broker.example.com".into(), 8883));
}

#[test]
fn broker_host_port_bare() {
    let cfg = Config { mqtt_broker: "mybroker".into(), ..default_cfg() };
    assert_eq!(cfg.broker_host_port(), ("mybroker".into(), 1883));
}

#[test]
fn broker_host_port_host_colon_port() {
    let cfg = Config { mqtt_broker: "mybroker:1884".into(), ..default_cfg() };
    assert_eq!(cfg.broker_host_port(), ("mybroker".into(), 1884));
}

#[test]
fn topics_parsed_from_comma_list() {
    let raw = "db/+/+/+/+/insert, db/+/+/+/+/upsert ,";
    let topics: Vec<String> = parse_topic_list(raw);
    assert_eq!(topics, vec!["db/+/+/+/+/insert", "db/+/+/+/+/upsert"]);
}

#[test]
fn broker_port_edge_cases() {
    let cfg = Config { mqtt_broker: "mqtt://h:notaport".into(), ..default_cfg() };
    assert_eq!(cfg.broker_host_port(), ("h".into(), 1883));
    let cfg = Config { mqtt_broker: "tcp://h:70000".into(), ..default_cfg() };
    assert_eq!(cfg.broker_host_port(), ("h".into(), 1883));
    let cfg = Config { mqtt_broker: "tcp://h:+42".into(), ..default_cfg() };
    assert_eq!(cfg.broker_host_port(), ("h".into(), 42));
    let cfg = Config { mqtt_broker: "tcp://tcp://[::1]:9000".into(), ..default_cfg() };
    assert_eq!(cfg.broker_host_port(), ("[::1]".into(), 9000));
    let cfg = Config { mqtt_broker: "h:".into(), ..default_cfg() };
    assert_eq!(cfg.broker_host_port(), ("h".into(), 1883));
}

fn vars(pairs: &[(&str, &str)]) -> Vec<(String, String)> {
    pairs.iter().map(|(k, v)| (k.to_string(), v.to_string())).collect()
}

#[test]
fn from_vars_defaults() {
    let c = Config::from_vars(&Vec::new(), "host1");
    assert_eq!(c.mqtt_broker, "tcp://localhost:1883");
    assert_eq!(c.mqtt_client_id, "ether-worker-host1");
    assert_eq!(c.worker_id, "ether-worker-host1");
    assert_eq!(
        c.mqtt_topics,
        vec!["db/+/+/+/+/insert", "db/+/+/+/+/insert_batch", "db/+/+/+/+/upsert"]
    );
    assert_eq!(c.mqtt_qos, 1);
    assert_eq!(c.mqtt_username, None);
    assert_eq!(c.sqlite_db, "/var/lib/ether-worker/ingest.db");
    assert_eq!(c.busy_timeout_ms, 5000);
    assert_eq!((c.batch_size_high, c.batch_size_normal, c.batch_size_low), (100, 500, 2000));
    assert_eq!((c.flush_ms_high, c.flush_ms_normal, c.flush_ms_low), (50, 200, 1000));
    assert_eq!((c.channel_cap_high, c.channel_cap_normal, c.channel_cap_low), (10000, 50000, 100000));
    assert!(c.dlq_enabled);
    assert_eq!(c.dlq_max_retries, 3);
    assert_eq!((c.health_interval_ms, c.metrics_interval_ms), (30000, 10000));
}

#[test]
fn from_vars_overrides() {
    let c = Config::from_vars(
        &vars(&[
            ("MQTT_QOS", "7"),
            ("MQTT_USERNAME", ""),
            ("MQTT_PASSWORD", "secret"),
            ("DLQ_ENABLED", "no"),
            ("BATCH_SIZE_HIGH", "12"),
            ("FLUSH_MS_LOW", "abc"),
            ("SQLITE_BUSY_TIMEOUT_MS", "4294967297"),
            ("WORKER_ID", "w-9"),
            ("MQTT_TOPICS", " a , ,b"),
        ]),
        "h",
    );
    assert_eq!(c.mqtt_qos, 2);
    assert_eq!(c.mqtt_username, None);
    assert_eq!(c.mqtt_password, Some("secret".to_string()));
    assert!(!c.dlq_enabled);
    assert_eq!(c.batch_size_high, 12);
    assert_eq!(c.flush_ms_low, 1000);
    assert_eq!(c.busy_timeout_ms, 1);
    assert_eq!(c.worker_id, "w-9");
    assert_eq!(c.mqtt_client_id, "ether-worker-h");
    assert_eq!(c.mqtt_topics, vec!["a", "b"]);
}

#[test]
fn queue_settings_per_priority() {
    let c = default_cfg();
    let h = c.queue_settings(Priority::High);
    assert_eq!((h.batch_size, h.flush_ms, h.channel_cap), (100, 50, 10_000));
    let l = c.queue_settings(Priority::Low);
    assert_eq!((l.batch_size, l.flush_ms, l.channel_cap), (2_000, 1_000, 100_000));
}

#[test]
fn spike_parse_broker_and_defaults() {
    assert_eq!(parse_broker("tcp://localhost:1883"), ("localhost".to_string(), 1883));
    assert_eq!(parse_broker("mqtt://b:1999"), ("b".to_string(), 1999));
    assert_eq!(parse_broker("b"), ("b".to_string(), 1883));
    let c = SpikeConfig::from_vars(&Vec::new(), 42);
    assert_eq!(c.broker_host, "localhost");
    assert_eq!(c.broker_port, 1883);
    assert_eq!(c.client_id, "snr-spike-rust-42");
    assert_eq!(c.topics, vec!["benchmark/#"]);
    assert_eq!(c.qos, 1);
    assert_eq!(c.sqlite_db, "/tmp/snr-spike-rust.db");
    assert_eq!(c.batch_size, 500);
    assert_eq!(c.flush_ms, 200);
    let c = SpikeConfig::from_vars(&vars(&[("MQTT_QOS", "300"), ("BATCH_SIZE", "10")]), 1);
    assert_eq!(c.qos, 1);
    assert_eq!(c.batch_size, 10);
}
