[package]
name = "mutual_tls"
version = "0.1.0"
edition = "2021"
publish = false

[dependencies]
reqwest = { version = "0.11", features = ["native-tls", "rustls-tls"] }
tokio = { version = "1", features = ["full"] }
warp = { version = "0.3", features = ["tls"] }

[dev-dependencies]
openssl = "0.10"
