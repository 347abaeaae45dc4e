[package]
name = "rsezsp"
version = "0.1.0"
edition = "2021"
publish = false

[dependencies]
thiserror = "2"
tokio = { version = "1", features = ["io-util", "macros", "rt", "time"] }
tokio-serial = "5"
tracing = "0.1"
