[package]
name = "service_lifecycle"
version = "0.1.0"
edition = "2021"
publish = false

[dependencies]
autometrics = { version = "*", features = ["prometheus-exporter"] }
tokio = { version = "1", features = ["macros", "rt-multi-thread", "signal", "sync"] }
tonic = "*"
tonic-health = "*"
warp = "0.3"
