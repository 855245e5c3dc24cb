[package]
name = "wasm_bridge"
version = "0.1.0"
edition = "2021"
publish = false

[dependencies]
wapc = "=2.2.0"
wasmtime-provider = "=2.24.0"
rmp-serde = "=1.3.1"
serde_json = "=1.0.151"
handlebars = "=6.4.4"
