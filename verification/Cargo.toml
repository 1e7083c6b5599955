[package]
name = "bee_agent"
version = "0.1.0"
edition = "2021"
publish = false

[dependencies]
if-addrs = "*"
serde = { version = "1", features = ["derive"] }
serde_json = "1"
serde_yaml = "0.9"
sysinfo = "*"
tokio = { version = "1", features = ["macros", "net", "rt-multi-thread"] }
