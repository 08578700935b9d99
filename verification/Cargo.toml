[package]
name = "wasmldr"
version = "0.1.0"
edition = "2021"
publish = false

[dependencies]
anyhow = "=1.0.104"
async-trait = "=0.1.92"
cap-std = "=3.4.6"
once_cell = "=1.21.4"
rustls = "=0.21.12"
wasi-common = "=46.0.3"
wasmtime = "=46.0.3"
wiggle = "=46.0.3"
