[package]
name = "apollo_puller"
version = "0.1.0"
edition = "2021"
publish = false

[dependencies]
anyhow = "*"
apollo-client = "=0.8.1"
cidr-utils = "=0.6.2"
clap = { version = "*", features = ["derive"] }
futures-util = "*"
log = "*"
log4rs = "*"
rust-ini = "=0.21.3"
serde = { version = "*", features = ["derive"] }
serde_yaml = "*"
tokio = { version = "*", features = ["full"] }
url = "*"
