[package]
name = "lucet-spectest"
version = "0.1.0"
edition = "2021"
publish = false

[dependencies]
failure = "=0.1.8"
lucet-runtime = "=0.6.1"
lucetc = "=0.2.1"
parity-wasm = "=0.45.0"
tempfile = "=3.27.0"

[dev-dependencies]
lucet-runtime-internals = "=0.6.1"
