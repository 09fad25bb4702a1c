[package]
name = "cc_switch"
version = "0.1.0"
edition = "2021"
publish = false

[dependencies]
chrono = { version = "0.4", default-features = false, features = ["clock", "std"] }
http = "1"
log = "0.4"
rusqlite = { version = "0.31", features = ["bundled", "hooks"] }
serde = "1"
serde_json = "1"
url = "2"
uuid = { version = "1", features = ["v4"] }
