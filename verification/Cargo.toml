[package]
name = "packet_commitments"
version = "0.1.0"
edition = "2021"
publish = false

[dependencies]
abscissa_core = "=0.6.0"
clap = { version = "=3.2.25", features = ["derive"] }
ibc = "=0.16.0"
ibc-relayer = "=0.16.0"
serde = { version = "=1.0.229", features = ["derive"] }
serde_json = "=1.0.154"
tokio = { version = "=1.54.1", features = ["rt-multi-thread"] }
