[package]
name = "ice-party-watch"
version = "0.1.0"
edition = "2021"
publish = false

[dependencies]
anyhow = "1"
async-trait = "0.1"
aws-config = "0.55"
aws-sdk-route53 = "0.28"
gcp_auth = "0.9"
public-ip = "0.2"
reqwest = { version = "0.11", default-features = false, features = ["rustls-tls"] }
secrecy = "0.8"
thiserror = "1"
tokio = { version = "1", features = ["macros", "rt-multi-thread", "time"] }
tracing = "0.1"
tracing-bunyan-formatter = "0.3"
tracing-subscriber = { version = "0.3", features = ["env-filter"] }
