[package]
name = "hyperspace_light"
version = "0.1.0"
edition = "2021"
publish = false

[dependencies]
anyhow = "1"
async-trait = "0.1"
env_logger = "0.10"
futures = "0.3"
ibc-proto = "=0.21.0"
ibc-relayer-types = "=0.20.0"
log = "0.4"
prost = "0.11"
serde = { version = "1", features = ["derive"] }
tendermint = "=0.25.0"
tendermint-light-client = "=0.25.0"
tendermint-rpc = { version = "=0.25.0", features = ["http-client", "websocket-client"] }
tokio = { version = "1", features = ["rt-multi-thread", "macros", "time"] }
tonic = "0.8"
