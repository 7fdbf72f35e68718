[package]
name = "secure_dns_resolver"
version = "0.2.0"
edition = "2021"
publish = false

[dependencies]
anyhow = "1"
base64 = "0.21"
bytes = "1"
clap = { version = "4", features = ["derive"] }
colored = "2"
futures = "0.3"
h3 = "0.0.3"
h3-quinn = "0.0.4"
http = "0.2"
quinn = "0.10"
rand = "0.8"
reqwest = { version = "0.11", default-features = false, features = ["rustls-tls"] }
rustls = "0.21"
thiserror = "1"
tokio = { version = "1", features = ["full"] }
tokio-rustls = "0.24"
trust-dns-proto = "0.23"
webpki-roots = "0.25"
