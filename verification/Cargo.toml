[package]
name = "nvim_mcp"
version = "0.1.0"
edition = "2021"
publish = false

[dependencies]
async-trait = "*"
blake3 = { version = "*", features = ["pure"] }
clap = { version = "*", features = ["derive"] }
dashmap = "*"
futures = "*"
glob = "*"
nvim-rs = { version = "*", features = ["use_tokio"] }
regex = "*"
rmcp = { version = "*", features = ["server", "macros", "transport-io"] }
rmpv = "*"
schemars = "*"
serde = { version = "*", features = ["derive"] }
serde_json = "*"
thiserror = "*"
tokio = { version = "*", features = ["full"] }
tracing = "*"
tracing-appender = "*"
tracing-subscriber = { version = "*", features = ["env-filter"] }

[dev-dependencies]
tempfile = "*"
