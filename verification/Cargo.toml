[package]
name = "http_conn"
version = "0.1.0"
edition = "2021"
publish = false

[dependencies]
bytes = "1"
futures-core = "0.3"
h2 = "0.4"
tokio = "1"
