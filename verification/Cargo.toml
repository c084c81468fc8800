[package]
name = "usubscription"
version = "0.1.0"
edition = "2021"
publish = false

[dependencies]
async-trait = "0.1"
chrono = { version = "0.4", default-features = false, features = ["std"] }
protobuf = "3.7"
tokio = { version = "1", default-features = false, features = ["sync"] }
