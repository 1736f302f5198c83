[package]
name = "two-mls-pq"
version = "0.1.0"
edition = "2021"
publish = false

[dependencies]
mls-rs = "*"
mls-rs-core = "*"
mls-rs-crypto-awslc = { version = "*", features = ["post-quantum"] }
zeroize = "1"
thiserror = "*"
uniffi = "*"
