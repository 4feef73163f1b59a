[package]
name = "coral-rs"
version = "0.1.0"
edition = "2021"
publish = false

[dependencies]
base64 = "=0.23.1"
byteorder = "=1.5.0"
futures = "=0.3.34"
prettyplease = "=0.3.0"
reqwest = { version = "=0.12.28", features = ["json"] }
rig-core = { version = "=0.19.0", features = ["rmcp"] }
rmcp = { version = "=0.5.0", features = ["client", "reqwest", "transport-sse-client", "transport-child-process"] }
serde = { version = "=1.0.229", features = ["derive"] }
serde_json = "=1.0.154"
syn = { version = "=3.0.9", features = ["full"] }
thiserror = "=2.0.21"
tokio = { version = "=1.54.1", features = ["full"] }
toml = "=1.1.8"
tracing = "=0.1.44"
tracing-subscriber = "=0.3.23"
