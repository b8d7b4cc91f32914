//! Verified core of a SQLite runtime and an MQTT-to-SQLite ingest worker.
pub mod text;
pub mod topic;
pub mod parse;
pub mod config;
pub mod spike;
pub mod metrics;
pub mod error;
pub mod runtime;
pub mod sqlite;
pub mod engine;
pub mod db;
pub mod schema;
pub mod inserter;
pub mod ingest;
pub mod statement;
pub mod control;
