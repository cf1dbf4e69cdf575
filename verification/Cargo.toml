[package]
name = "kube_facts"
version = "0.1.0"
edition = "2021"
publish = false

[dependencies]
kube = { version = "*", features = ["client", "runtime"] }
k8s-openapi = { version = "*", features = ["latest"] }
tokio = { version = "*", features = ["macros", "rt-multi-thread"] }
futures = "*"
anyhow = "*"
log = "*"
env_logger = "*"
