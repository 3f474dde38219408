[package]
name = "sys_stats"
version = "0.1.0"
edition = "2021"
publish = false

[dependencies]
nvml-wrapper = "=0.13.0"
sysinfo = "=0.39.6"
sys-info = "=0.9.1"
serde = { version = "=1.0.229", features = ["derive"] }
serde_json = "=1.0.151"
