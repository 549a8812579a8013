[package]
name = "stackable-opa-operator"
version = "0.1.0"
edition = "2021"
publish = false

[dependencies]
axum = "0.8"
clap = { version = "4", features = ["derive", "env"] }
flate2 = "1"
futures = "0.3"
k8s-openapi = { version = "0.27", features = ["latest"] }
kube = { version = "3", default-features = false, features = ["client", "runtime", "rustls-tls", "ring"] }
moka = { version = "0.12", features = ["future"] }
rand = "0.8"
reqwest = { version = "0.12", default-features = false }
serde = { version = "1", features = ["derive"] }
serde_json = "1"
snafu = "0.8"
tar = "0.4"
tokio = { version = "1", features = ["fs", "macros", "net", "rt-multi-thread", "signal", "sync", "time"] }
tracing = "0.1"
url = "2"
