[package]
name = "rabbit_relay"
version = "0.1.0"
edition = "2021"
publish = false

[dependencies]
lapin = { version = "1", default-features = false }
tokio = { version = "1", features = ["rt", "macros", "io-std", "io-util"] }
futures = "0.3"
log = "0.4"
env_logger = { version = "0.9", default-features = false }

[dev-dependencies]
tokio-util = { version = "0.7", features = ["codec"] }
bytes = "1"
