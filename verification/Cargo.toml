[package]
name = "quilkin"
version = "0.1.0"
edition = "2021"
publish = false

[dependencies]
uuid = { version = "1", features = ["v4"] }
cached = "0.44"
hyper = { version = "0.14", features = ["server", "http1", "runtime", "tcp"] }
tokio = { version = "1", features = ["rt-multi-thread", "macros", "sync", "time", "net"] }
serde = { version = "1", features = ["derive"] }
serde_json = "1"
prometheus = "0.13"
