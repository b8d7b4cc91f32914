//! Single-queue MQTT-to-SQLite worker built directly on `rusqlite`.
pub mod config;
pub mod inserter;
