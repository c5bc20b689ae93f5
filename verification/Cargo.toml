[package]
name = "crowsong"
version = "0.1.0"
edition = "2021"
publish = false

[dependencies]
http = "1"
hyper = "1"
hyper-util = { version = "0.1", features = ["client-legacy", "http2", "tokio"] }
rustls = { version = "0.23", default-features = false, features = ["ring", "std", "tls12", "logging"] }
tokio = { version = "1", features = ["rt-multi-thread", "macros", "net"] }
tokio-rustls = { version = "0.26", default-features = false, features = ["ring", "tls12", "logging"] }
tonic = "0.14"
tower = { version = "0.5", features = ["util"] }
prost = "0.14"
prost-types = "0.14"
dotenv = "0.15"
pyo3 = "*"
