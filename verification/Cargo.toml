[package]
name = "obs-service-cargo-vendor-home-registry"
version = "0.1.0"
edition = "2021"
publish = false

[dependencies]
libroast = "=5.1.7"
clap = { version = "=4.6.7", features = ["derive"] }
tempfile = "=3.27.0"
tracing = "=0.1.44"
