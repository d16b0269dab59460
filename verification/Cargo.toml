[package]
name = "rust_chanpool"
version = "0.1.0"
edition = "2021"
publish = false

[dependencies]
tokio = { version = "1", features = ["sync", "rt", "rt-multi-thread", "time", "macros"] }
fastrand = "2"
num_cpus = "1"
futures = "0.3"
thiserror = "1"
tracing = "0.1"
