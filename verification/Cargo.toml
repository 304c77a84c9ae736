[package]
name = "pglite"
version = "0.1.0"
edition = "2021"
publish = false

[dependencies]
rusqlite = { version = "=0.40.2", features = ["bundled", "column_decltype"] }
crossbeam-channel = "=0.5.17"
pgwire = "=0.41.1"
uuid = { version = "=1.27.0", features = ["v4"] }
bytes = "=1.12.1"
tokio = { version = "=1.53.2", features = ["full"] }
tokio-util = { version = "=0.7.19", features = ["codec"] }
tokio-rustls = "=0.26.6"
futures = "=0.3.34"
futures-util = "=0.3.34"
futures-sink = "=0.3.34"
async-trait = "=0.1.92"
clap = { version = "=4.6.7", features = ["derive", "env"] }
log = "=0.4.34"
simplelog = "=0.12.2"
