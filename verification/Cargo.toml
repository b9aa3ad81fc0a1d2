[package]
name = "rho_system_processes"
version = "0.1.0"
edition = "2021"
publish = false

[dependencies]
hex = "0.4"
k256 = { version = "0.13", features = ["ecdsa"] }
prost = "0.13"
serde_json = "1"
tempfile = "3"
tokio = { version = "1", features = ["io-util", "macros", "process", "rt", "sync", "time"] }
tokio-stream = { version = "0.1", features = ["io-util"] }
tracing = "0.1"
uuid = { version = "1", features = ["v4"] }
