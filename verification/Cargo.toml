[package]
name = "certmaster"
version = "0.1.0"
edition = "2021"
publish = false

[dependencies]
uuid = { version = "*", features = ["v4"] }
kube = { version = "*", features = ["client", "runtime", "derive"] }
k8s-openapi = { version = "*", features = ["latest"] }
tokio = { version = "*", features = ["rt-multi-thread", "macros", "sync"] }
futures = "*"
serde = { version = "*", features = ["derive"] }
serde_yaml = "*"
thiserror = "*"
anyhow = "*"
env_logger = "*"
