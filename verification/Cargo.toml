[package]
name = "zookeeper_operator"
version = "0.1.0"
edition = "2021"
publish = false

[dependencies]
chrono = { version = "=0.4.45", features = ["serde"] }
futures = "=0.3.34"
k8s-openapi = { version = "=0.27.1", features = ["latest", "schemars"] }
kube = { version = "=3.1.0", features = ["client", "runtime", "derive"] }
prometheus = "=0.14.0"
schemars = { version = "=1.2.2", features = ["derive"] }
serde = { version = "=1.0.229", features = ["derive"] }
serde_json = "=1.0.151"
tokio = { version = "=1.53.2", features = ["macros", "rt-multi-thread", "sync", "time"] }
