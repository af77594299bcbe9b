[package]
name = "wasmtime-jni"
version = "0.1.0"
edition = "2021"
rust-version = "1.95"
publish = false

[dependencies]
anyhow = "1"
flexi_logger = "0.17"
jni = "0.19"
log = "0.4"
wasmtime = { version = "=36.0.19", default-features = false, features = ["cranelift", "runtime", "std", "wat"] }
wasmtime-wasi = "=36.0.19"
