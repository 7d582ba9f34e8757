[package]
name = "rusty_proxy"
version = "0.1.0"
edition = "2021"
publish = false

[dependencies]
base64 = "0.22"
sha1 = "0.10"
tokio = { version = "1", features = ["net", "io-util", "rt-multi-thread", "macros"] }
