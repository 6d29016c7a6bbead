[package]
name = "punchr"
version = "0.1.0"
edition = "2021"
publish = false

[dependencies]
clap = { version = "3", default-features = false, features = ["derive", "std"] }
env_logger = { version = "0.9", default-features = false }
futures = { version = "0.3", default-features = false, features = ["async-await", "std"] }
futures-timer = "3"
hyper-rustls = { version = "=0.23.2", default-features = false, features = ["http1", "http2", "tls12", "tokio-runtime"] }
libp2p = { version = "=0.52.4", default-features = false, features = ["async-std", "dcutr", "dns", "ed25519", "identify", "macros", "noise", "ping", "relay", "tcp", "yamux"] }
log = "0.4"
prost = "0.10"
rustls = { version = "=0.20.9", features = ["dangerous_configuration"] }
tokio = { version = "1", features = ["macros", "rt-multi-thread"] }
tonic = "=0.7.2"
