[package]
name = "sysmon"
version = "0.1.0"
edition = "2021"
publish = false

[dependencies]
serde = { version = "=1.0.229", features = ["derive"] }
sysinfo = "=0.39.6"
tokio = { version = "=1.53.2", features = ["rt-multi-thread", "time"] }
