[package]
name = "proxy_pool"
version = "0.1.0"
edition = "2021"
publish = false

[dependencies]
async-trait = "0.1"
axum = "0.7"
cidr = "0.2"
clap = { version = "4", features = ["derive", "env"] }
hyper = { version = "0.14", features = ["full"] }
lazy_static = "1"
prometheus = "0.13"
rand = "0.8"
thiserror = "1"
tokio = { version = "1", features = ["full"] }
tracing = "0.1"
tracing-subscriber = "0.3"
