[package]
name = "storz_rs"
version = "0.1.0"
edition = "2021"
publish = false

[dependencies]
async-trait = "=0.1.92"
btleplug = "=0.11.8"
dbus = { version = "=0.9.12", features = ["vendored"] }
futures = "=0.3.34"
tokio = { version = "=1.54.1", features = ["sync", "time", "rt", "macros"] }
tokio-stream = { version = "=0.1.19", features = ["sync"] }
tracing = "=0.1.44"
uuid = "=1.29.0"
