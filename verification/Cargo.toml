[package]
name = "stream_io"
version = "0.1.0"
edition = "2021"
publish = false

[dependencies]
ntex-bytes = "=0.1.10"
ntex-codec = "=0.6.0"
ntex-service = "=0.3.3"
ntex-util = "=0.1.19"
async-std = { version = "=1.13.2", features = ["unstable"] }
async-oneshot = "=0.5.9"
derive_more = "=0.99.20"
log = "=0.4.34"
pin-project-lite = "=0.2.17"
openssl = "=0.10.81"
rustls = "=0.20.9"

[dev-dependencies]
ring = "=0.16.20"
