[package]
name = "sv2_custom_proxy"
version = "0.1.0"
edition = "2021"
publish = false

[dependencies]
serde_json = "=1.0.154"
async-channel = "=2.5.0"
codec_sv2 = "=3.0.1"
parsers_sv2 = "=0.1.1"
stratum-common = "=4.0.1"
prometheus = "=0.13.4"
reqwest = { version = "=0.12.28", default-features = false, features = ["rustls-tls"] }
tokio = { version = "=1.54.1", features = ["full"] }
tracing = "=0.1.44"
tracing-subscriber = { version = "=0.3.23", features = ["env-filter"] }
warp = "=0.3.7"
