[package]
name = "offload"
version = "0.1.0"
edition = "2021"
publish = false

[dependencies]
postcard = { version = "=1.1.3", features = ["alloc"] }
serde = { version = "=1.0.229", features = ["derive"] }
wasmparser = "=0.263.0"
anyhow = "=1.0.104"
cargo_metadata = "=0.23.1"
wasmtime = "=45.0.3"
wasmtime-wasi = "=45.0.3"
syn = { version = "=2.0.119", features = ["full", "visit"] }
quote = "=1.0.47"
proc-macro2 = "=1.0.107"
