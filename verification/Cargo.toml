[package]
name = "copytej"
version = "0.1.0"
edition = "2021"
publish = false

[dependencies]
blake3 = "=1.8.7"
xxhash-rust = { version = "=0.8.19", features = ["xxh3"] }
crc32fast = "=1.5.4"
md5 = "0.7"
sha2 = "0.10"
serde = { version = "=1.0.229", features = ["derive"] }
serde_json = "=1.0.154"
uuid = { version = "=1.29.0", features = ["v4"] }
chrono = "=0.4.45"
tokio = { version = "=1.54.1", features = ["full"] }
rusqlite = { version = "=0.41.1", features = ["bundled"] }
walkdir = "=2.5.0"
rayon = "=1.12.0"
memmap2 = "=0.9.12"
thiserror = "=2.0.21"
