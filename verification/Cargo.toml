[package]
name = "laval_node"
version = "0.1.0"
edition = "2021"
publish = false

[dependencies]
url = "2"
rathole = "*"
serde = { version = "1", features = ["derive"] }
serde_json = "1"
toml = "0.8"
anyhow = "1"
clap = { version = "4", features = ["derive"] }
tracing = "0.1"
tracing-subscriber = { version = "0.3", features = ["env-filter"] }
tokio = { version = "1", features = ["rt", "rt-multi-thread", "sync"] }
pingora-core = "*"
pingora-proxy = "*"
pingora-error = "*"
async-trait = "0.1"
bytes = "1"
tonic = "0.12"
prost = "0.13"
