[package]
name = "rchidrun"
version = "0.1.0"
edition = "2021"
publish = false

[dependencies]
anyhow = "=1.0.104"
clap = { version = "=4.6.7", features = ["derive"] }
reqwest = { version = "=0.12.28", default-features = false, features = ["blocking", "rustls-tls", "charset", "http2"] }
wasmtime = "=36.0.19"
wasmtime-wasi = "=36.0.19"
