[package]
name = "io_expander"
version = "0.1.0"
edition = "2021"
publish = false

[dependencies]
esp-idf-svc = "*"
error-stack = "*"
log = "*"
thiserror = "*"
tokio = { version = "*", features = ["rt", "time"] }
tracing = "*"
