[package]
name = "executors"
version = "0.1.0"
edition = "2021"
publish = false

[dependencies]
agent-client-protocol = "=0.9.5"
anyhow = "=1.0.104"
async-trait = "=0.1.92"
chrono = { version = "=0.4.45", features = ["serde"] }
command-group = { version = "=5.0.1", features = ["with-tokio"] }
convert_case = "=0.6.0"
dirs = "=5.0.1"
futures = "=0.3.34"
json-patch = "=2.0.0"
nix = { version = "=0.29.0", features = ["signal", "process"] }
regex = "=1.13.1"
serde = { version = "=1.0.229", features = ["derive"] }
serde_json = { version = "=1.0.154", features = ["preserve_order"] }
strip-ansi-escapes = "=0.2.1"
thiserror = "=2.0.21"
tokio = { version = "=1.54.1", features = ["full"] }
tokio-util = "=0.7.20"
tracing = "=0.1.44"
uuid = { version = "=1.29.0", features = ["v4"] }
which = "=8.0.6"
