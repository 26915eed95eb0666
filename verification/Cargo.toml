[package]
name = "test_controller"
version = "0.1.0"
edition = "2021"
publish = false

[dependencies]
anyhow = "1"
k8s-openapi = { version = "*", features = ["latest"] }
kube = "*"
log = "0.4"
serde = { version = "1", features = ["derive"] }
serde_json = "1"
tokio = { version = "1", features = ["macros", "rt-multi-thread", "time"] }
