[package]
name = "tower_client"
version = "0.1.0"
edition = "2021"
publish = false

[dependencies]
http = "0.2"
hyper = { version = "0.14", features = ["client", "http1", "tcp", "runtime"] }
serde = { version = "1", features = ["derive"] }
serde_json = "1"
tokio = { version = "1", features = ["rt", "rt-multi-thread", "macros", "time"] }
tower = { version = "0.4", features = ["util", "timeout", "limit", "load-shed"] }

[dev-dependencies]
tokio-test = "0.4"
tower-test = "0.4"
