[package]
name = "mistctr"
version = "0.1.0"
edition = "2021"
publish = false

[dependencies]
anyhow = "1"
axum = "0.8"
clap = { version = "4", features = ["derive"] }
dashmap = "6"
env_logger = "0.11"
reqwest = { version = "0.12", default-features = false, features = ["json"] }
serde = { version = "1", features = ["derive"] }
serde_json = "1"
serde_yaml = "0.9"
sled = "0.34"
thiserror = "2"
tokio = { version = "1", features = ["full"] }
tracing = { version = "0.1", features = ["log"] }
wasmtime = { version = "33", default-features = false, features = ["runtime", "cranelift", "component-model", "async", "std"] }
wasmtime-wasi = "33"
