[package]
name = "rsomeip"
version = "0.1.0"
edition = "2021"
publish = false

[dependencies]
bytes = "1"
scc = "2"
thiserror = "2"
tokio = { version = "1", features = ["full"] }
tokio-util = "0.7"
