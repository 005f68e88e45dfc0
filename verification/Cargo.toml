[package]
name = "tabkit"
version = "0.1.0"
edition = "2021"
publish = false

[dependencies]
uuid = { version = "1", features = ["v4"] }
tokio = { version = "1", features = ["sync", "time", "rt", "macros"], default-features = false }
parking_lot = "0.12"
