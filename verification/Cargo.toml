[package]
name = "open62541"
version = "0.1.0"
edition = "2021"
publish = false

[dependencies]
futures-channel = "0.3"
log = "0.4"
open62541-sys = "*"
tokio = { version = "1", default-features = false, features = ["rt", "sync", "time"] }
