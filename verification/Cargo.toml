[package]
name = "tokio-vsock"
version = "0.1.0"
edition = "2021"
publish = false

[dependencies]
axum = { version = "=0.8.9", default-features = false, features = ["tokio", "http1"] }
bytes = "=1.12.1"
clap = { version = "=4.6.7", default-features = false, features = ["std", "help", "usage", "error-context"] }
futures = "=0.3.34"
libc = "=0.2.191"
tokio = { version = "=1.54.1", features = ["io-util", "net", "rt", "time"] }
tonic = "0.12"
vsock = "=0.5.4"
