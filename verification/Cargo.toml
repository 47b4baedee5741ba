[package]
name = "daymural"
version = "0.1.0"
edition = "2021"
publish = false

[dependencies]
dirs = "*"
tokio = { version = "1", features = ["macros", "rt", "sync", "time"] }
tracing = "0.1"
