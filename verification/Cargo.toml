[package]
name = "sms_tagging_officer"
version = "0.1.0"
edition = "2021"
publish = false

[dependencies]
rusqlite = { version = "*", features = ["bundled"] }
serde = { version = "*", features = ["derive"] }
serde_json = "*"
csv = "*"
calamine = "*"
ureq = { version = "2", features = ["json"] }
parking_lot = "*"
