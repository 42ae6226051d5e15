[package]
name = "domain_fronting"
version = "0.1.0"
edition = "2021"
publish = false

[dependencies]
anyhow = "=1.0.104"
async-trait = "=0.1.92"
bytes = "=1.12.1"
clap = { version = "=4.6.7", features = ["derive"] }
futures = "=0.3.34"
http = "=1.5.0"
http-body-util = "=0.1.5"
hyper = { version = "=1.12.0", features = ["client", "server", "http1", "http2"] }
hyper-util = { version = "=0.1.21", features = ["client-legacy", "tokio"] }
kameo = "=0.18.0"
log = "=0.4.35"
rustls = { version = "=0.23.46", default-features = false, features = ["std", "tls12", "ring"] }
rustls-pki-types = { version = "=1.15.1", features = ["std"] }
serde = { version = "=1.0.229", features = ["derive"] }
thiserror = "=2.0.21"
tokio = { version = "=1.54.1", features = ["full"] }
tokio-rustls = { version = "=0.26.6", default-features = false, features = ["tls12", "ring"] }
tokio-util = { version = "=0.7.20", features = ["io", "rt"] }
tracing-subscriber = { version = "=0.3.23", features = ["env-filter"] }
uuid = { version = "=1.29.0", features = ["v4"] }
webpki-roots = "=1.0.10"
