[package]
name = "cozy-matches"
version = "0.1.0"
edition = "2021"
publish = false

[dependencies]
cozy-chess = "0.3"
async-stream = "0.3"
clap = { version = "4", features = ["derive"] }
futures-core = "0.3"
futures-util = "0.3"
serde = { version = "1", features = ["derive"] }
serde_json = "1"
thiserror = "1"
tokio = { version = "1", features = ["process", "io-util", "macros", "rt", "rt-multi-thread", "time"] }
tokio-stream = "0.1"
vampirc-uci = "0.11"
