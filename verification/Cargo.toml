[package]
name = "kubectl_copi"
version = "0.1.0"
edition = "2021"
publish = false

[dependencies]
anyhow = "=1.0.104"
clap = { version = "=4.6.7", features = ["derive"] }
env_logger = "=0.11.11"
inquire = "=0.9.4"
k8s-openapi = { version = "=0.27.1", features = ["latest"] }
kube = { version = "=3.1.0", features = ["unstable-client"] }
log = "=0.4.34"
tokio = { version = "=1.54.1", features = ["macros", "rt-multi-thread"] }
