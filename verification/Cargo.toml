[package]
name = "agent_server"
version = "0.1.0"
edition = "2021"
publish = false

[dependencies]
base64 = "=0.23.1"
chrono = "=0.4.45"
serde_json = "=1.0.151"
urlencoding = "=2.1.3"
serde = { version = "=1.0.229", features = ["derive"] }
tokio = { version = "=1.53.2", features = ["full"] }
axum = { version = "=0.8.9", features = ["ws"] }
futures = "=0.3.34"
reqwest = { version = "=0.13.5", default-features = false, features = ["json"] }
rig-core = "=0.30.0"
rmcp = { version = "=3.5.1", features = ["client", "transport-child-process", "transport-io"] }
dirs = "=7.0.0"
libc = "=0.2.190"
tracing-subscriber = "=0.3.23"
