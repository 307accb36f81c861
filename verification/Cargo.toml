[package]
name = "scouter"
version = "0.1.0"
edition = "2021"
publish = false

[dependencies]
chrono = "0.4"
dotenvy = "0.15"
futures-util = "0.3"
lazy_static = "1"
mongodb = "2"
parking_lot = "0.12"
poise = "0.5"
reqwest = { version = "0.11", default-features = false, features = ["json", "rustls-tls"] }
serde = { version = "1", features = ["derive"] }
serde_json = "1"
thiserror = "1"
tokio = { version = "1", features = ["macros", "rt-multi-thread", "time"] }
