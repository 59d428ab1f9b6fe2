[package]
name = "realsense_rust"
version = "0.1.0"
edition = "2021"
publish = false

[dependencies]
anyhow = "=1.0.104"
log = "=0.4.34"
nalgebra = "=0.35.0"
num-derive = "=0.5.1"
num-traits = "=0.2.19"
realsense-sys = { version = "=2.56.5", features = ["docs-only"] }
thiserror = "=1.0.69"
