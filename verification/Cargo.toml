[package]
name = "async_xml"
version = "0.1.0"
edition = "2021"
publish = false

[dependencies]
quick-xml = { version = "0.31", features = ["async-tokio"] }
thiserror = "1"
tokio = { version = "1", features = ["io-util"] }
