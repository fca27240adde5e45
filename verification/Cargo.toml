[package]
name = "axum_proxy"
version = "0.1.0"
edition = "2021"
publish = false

[dependencies]
http = "*"
hyper = "*"
hyper-util = { version = "*", features = ["client", "client-legacy", "http1", "tokio"] }
hyper-tls = "*"
tower-service = "*"
http-body-util = "*"
