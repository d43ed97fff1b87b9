[package]
name = "void_upload"
version = "0.1.0"
edition = "2021"
publish = false

[dependencies]
axum = { version = "*", features = ["http2", "macros"] }
axum-server = { version = "*", features = ["tls-rustls"] }
clap = { version = "*", features = ["derive"] }
futures-util = "*"
tokio = { version = "*", features = ["macros", "rt-multi-thread"] }
tracing = "*"
tracing-subscriber = "*"
