[package]
name = "holochain_state"
version = "0.1.0"
edition = "2021"
publish = false

[dependencies]
base64 = "*"
blake2b_simd = "=1.0.5"
rusqlite = "=0.40.2"
thiserror = "=2.0.21"
tracing = "=0.1.44"
