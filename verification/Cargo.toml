[package]
name = "ufbt"
version = "0.1.0"
edition = "2021"
publish = false

[dependencies]
chrono = "0.4"
indexmap = "2"
percent-encoding = "2"
regex = "1"
reqwest = { version = "0.12", default-features = false, features = ["rustls-tls"] }
rustls = { version = "0.23", default-features = false, features = ["ring", "std", "tls12"] }
rustls-platform-verifier = "0.5"
serde = { version = "1", features = ["derive"] }
serde_json = { version = "1", features = ["preserve_order"] }
thiserror = "2"
tokio = { version = "1", features = ["fs", "io-util", "process", "sync", "rt", "rt-multi-thread", "macros"] }
zip = { version = "2", default-features = false, features = ["deflate"] }

[dev-dependencies]
tempfile = "3"
