[package]
name = "steward"
version = "0.1.0"
edition = "2021"
publish = false

[dependencies]
anyhow = "1"
axum = { version = "0.4", features = ["headers"] }
clap = { version = "3", features = ["derive"] }
der = { version = "0.5", features = ["std"] }
hyper = "0.14"
mime = "0.3"
p256 = "0.11"
p384 = "0.11"
pkcs8 = "0.9"
sgx = "*"
tokio = { version = "1", features = ["full"] }
tracing = "0.1"
tracing-subscriber = "0.3"
x509-cert = "0.1"
zeroize = "1"
