[package]
name = "southlaw_report"
version = "0.1.0"
edition = "2021"
publish = false

[dependencies]
sha2 = "*"
serde = { version = "*", features = ["derive"] }
serde_json = "*"
lopdf = "*"
reqwest = { version = "*", default-features = false }
tokio = { version = "*", features = ["macros", "rt-multi-thread"] }
jsonrpsee = { version = "*", features = ["server", "http-client"] }
hyper = "*"
tower = { version = "*", features = ["timeout"] }
anyhow = "*"
tracing-subscriber = { version = "*", features = ["env-filter"] }
thiserror = "*"
