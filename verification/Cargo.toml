[package]
name = "web_sync"
version = "0.1.0"
edition = "2021"
publish = false

[dependencies]
actix-web = { version = "4", default-features = false, features = ["macros"] }
tokio = { version = "1", features = ["sync", "time", "rt", "macros"] }
secp256k1 = { version = "0.27", features = ["rand-std"] }
serde = { version = "1", features = ["derive"] }
serde_json = "1"
