[package]
name = "datu"
version = "0.1.0"
edition = "2021"
publish = false

[dependencies]
anyhow = "=1.0.104"
arrow = "=59.3.1"
arrow-avro = "=59.3.1"
arrow-json = "=59.3.1"
chrono = "=0.4.45"
clap = { version = "=4.6.7", features = ["derive", "cargo"] }
csv = "=1.4.0"
hashlink = "=0.12.2"
orc-rust = "=0.9.0"
parquet = "=59.3.1"
rust_xlsxwriter = { version = "=0.101.0", features = ["chrono"] }
saphyr = "=0.2.2"
serde = { version = "=1.0.229", features = ["derive"] }
serde_json = "=1.0.154"
thiserror = "=2.0.21"
