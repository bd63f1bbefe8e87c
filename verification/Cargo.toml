[package]
name = "peerlink"
version = "0.1.0"
edition = "2021"
publish = false

[dependencies]
blake3 = { version = "1", default-features = false, features = ["pure", "std"] }
bincode = "1.3"
serde = { version = "1", features = ["derive"] }
tokio = { version = "1", features = ["io-util", "time", "net", "rt", "macros", "sync"] }
futures = "0.3"
