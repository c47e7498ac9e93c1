[package]
name = "little_squid_cli"
version = "0.1.0"
edition = "2021"
publish = false

[dependencies]
anyhow = "1"
clap = { version = "4", features = ["derive"] }
colored = "2"
crossbeam = "0.8"
futures = "0.3"
indicatif = "0.17"
polars = { version = "0.35", default-features = false, features = ["parquet"] }
reqwest = { version = "0.11", features = ["json"] }
serde_json = "1"
tokio = { version = "1", features = ["full"] }
