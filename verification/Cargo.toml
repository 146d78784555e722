[package]
name = "maybe_tls"
version = "0.1.0"
edition = "2021"
publish = false

[dependencies]
rustls = "=0.23.45"
rustls-pemfile = "=2.2.0"
tokio = { version = "=1.53.2", features = ["rt", "io-util", "net", "fs"] }
tokio-rustls = "=0.26.6"

[dev-dependencies]
rcgen = "0.13"
