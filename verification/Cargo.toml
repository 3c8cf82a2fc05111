[package]
name = "msquic_h3"
version = "0.1.0"
edition = "2021"
publish = false

[dependencies]
bytes = "1"
h3 = "0.0.6"
lazy_static = "1"
libloading = "0.8"
tokio = { version = "1", features = ["sync", "rt", "time"] }
tracing = "0.1"
windows-bindgen = "0.58"
windows-core = "0.58"
