[package]
name = "ci2-nokhwa"
version = "0.1.0"
edition = "2021"
publish = false

[dependencies]
chrono = "0.4"
eyre = "0.6"
lazy_static = "1"
machine-vision-formats = "0.1"
nokhwa = "0.10"
thiserror = "1"
tracing = "0.1"
