[package]
name = "hyper_microservice"
version = "0.1.0"
edition = "2021"
publish = false

[dependencies]
hyper = { version = "1", features = ["http1", "http2", "server"] }
hyper-util = { version = "0.1", features = ["http1", "http2", "server", "server-auto", "tokio"] }
tokio = { version = "1", features = ["net", "rt", "rt-multi-thread", "macros", "io-util", "time", "sync"] }
