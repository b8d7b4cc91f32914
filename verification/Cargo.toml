[package]
name = "sqlite_native_runtime"
version = "0.1.0"
edition = "2021"
publish = false

[dependencies]
rusqlite = { version = "0.32", features = ["bundled"] }
libsqlite3-sys = { version = "0.30", features = ["bundled"] }
jni = "0.21"
rumqttc = { version = "0.24", default-features = false }
tokio = { version = "1", features = ["rt-multi-thread", "macros", "signal", "time", "sync"] }
serde_json = "1"
uuid = { version = "1", features = ["v4"] }
chrono = "0.4"
