[package]
name = "tw-rs"
version = "0.1.0"
edition = "2021"
publish = false

[dependencies]
anyhow = "=1.0.104"
bitcoin_hashes = { version = "=0.15.0", features = ["serde"] }
bytes = "=1.12.1"
chrono = "=0.4.45"
serde = { version = "=1.0.229", features = ["derive"] }
serde_json = "=1.0.154"
time = { version = "=0.3.55", features = ["formatting", "parsing", "serde"] }
url = "2"
uuid = { version = "=1.29.0", features = ["serde"] }
xshell = "=0.2.7"
