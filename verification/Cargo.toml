[package]
name = "managed_node_pool"
version = "0.1.0"
edition = "2021"
publish = false

[dependencies]
anyhow = "1"
de_env = "*"
duration-str = "*"
futures = "0.3"
k8s-openapi = { version = "0.23", features = ["latest"] }
kube = { version = "0.96", features = ["runtime", "derive"] }
reqwest = { version = "0.12", default-features = false, features = ["json", "rustls-tls"] }
schemars = "0.8"
serde = { version = "1", features = ["derive"] }
serde_json = "1"
serde_yaml = "0.9"
thiserror = "1"
tokio = { version = "1", features = ["macros", "rt"] }
tracing = "0.1"
tracing-subscriber = "0.3"
trait-variant = "0.1"
