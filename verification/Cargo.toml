[package]
name = "sero"
version = "0.1.0"
edition = "2021"
publish = false

[dependencies]
anyhow = "=1.0.104"
clap = { version = "=4.6.7", features = ["derive", "env"] }
futures = "=0.3.34"
hostname = "=0.4.2"
json-patch = "=4.2.0"
k8s-openapi = { version = "=0.27.1", features = ["latest"] }
kube = { version = "=3.1.0", features = ["runtime"] }
serde_json = "=1.0.151"
tokio = { version = "=1.53.2", features = ["rt-multi-thread", "macros", "net", "signal", "sync", "io-util", "time"] }
tracing = "=0.1.44"
tracing-subscriber = "=0.3.23"
