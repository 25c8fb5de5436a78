[package]
name = "wheel_tagger"
version = "0.1.0"
edition = "2021"
publish = false

[dependencies]
cargo_metadata = "=0.12.3"
maturin = { version = "=0.9.0", default-features = false }
structopt = "=0.3.26"
