[package]
name = "mavlink-ffi"
version = "0.1.0"
edition = "2021"
publish = false

[dependencies]
aranya-policy-vm = { version = "=0.24.0", features = ["derive"] }
aranya-crypto = "=0.15.0"
thiserror = "=2.0.21"
