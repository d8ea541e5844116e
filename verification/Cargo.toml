[package]
name = "docan_rs"
version = "0.1.0"
edition = "2021"
publish = false

[dependencies]
iso14229-1 = "=0.1.0"
iso15765-2 = "=0.1.0"
rs-can = "=0.4.1"
rsutil = { version = "=0.1.26", features = ["types"] }
rand = "=0.9.5"
bytes = "=1.12.1"
tokio = { version = "=1.54.1", features = ["full"] }
async-trait = "=0.1.92"
serde = { version = "=1.0.229", features = ["derive"] }
serde_yaml = "=0.9.34"
thiserror = "=2.0.21"
