[package]
name = "lan_discovery"
version = "0.1.0"
edition = "2021"
publish = false

[dependencies]
anyhow = "1"
log = "0.4"
radix_trie = "0.2"
rustls = { version = "0.23", default-features = false, features = ["ring", "std", "tls12", "logging"] }
rustyline = "*"
rustyline-derive = "*"
serde = { version = "1", features = ["derive"] }
thiserror = "1"
tokio = { version = "1", features = ["full"] }
tokio-util = "0.7"
toml = "0.8"
tracing-subscriber = { version = "0.3", features = ["env-filter"] }
webpki-roots = "0.26"
x509-parser = "0.16"
