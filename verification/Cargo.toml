[package]
name = "lyra"
version = "0.1.0"
edition = "2021"
publish = false

[dependencies]
hex = "0.4.3"
serde = { version = "1", features = ["derive"] }
serde_json = "1"
gasket = { version = "0.6.0", features = ["derive"] }
pallas = "0.27.0"
r2d2_redis = "0.14.0"
bb8-postgres = "0.8.1"
tokio = { version = "1", features = ["rt-multi-thread", "fs"] }
tonic = "0.11.0"
utxorpc-spec = "0.5.1"
clap = { version = "4.4.18", features = ["derive"] }
config = "0.13.4"
tracing = "0.1"
async-trait = "0.1"
futures = "0.3"
