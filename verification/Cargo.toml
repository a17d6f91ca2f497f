[package]
name = "lgn-worker"
version = "0.1.0"
edition = "2021"
publish = false

[dependencies]
alloy-primitives = "0.8"
anyhow = "1"
backtrace = "0.3"
bincode = "1"
blake3 = "1"
clap = { version = "4", features = ["derive"] }
jwt = "0.16"
k256 = "0.13"
metrics = "0.23"
metrics-exporter-prometheus = { version = "0.15", default-features = false, features = ["http-listener"] }
mimalloc = "0.1"
prost = "0.13"
rustls = "0.23"
semver = "1"
serde = { version = "1", features = ["derive"] }
serde_json = "1"
tokio = { version = "1", features = ["rt-multi-thread", "macros", "sync"] }
tokio-stream = "0.1"
tonic = { version = "0.12", features = ["tls", "tls-roots"] }
tracing = "0.1"
tracing-subscriber = { version = "0.3", features = ["env-filter", "json"] }
uuid = "1"
warp = { version = "0.3", default-features = false }
