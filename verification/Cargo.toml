[package]
name = "sc-executor-wasmtime"
version = "0.8.0"
edition = "2021"
publish = false

[dependencies]
cranelift-codegen = "=0.50.0"
cranelift-entity = "=0.50.0"
cranelift-frontend = "=0.50.0"
cranelift-native = "=0.50.0"
cranelift-wasm = "=0.50.0"
wasmtime-environ = "=0.8.0"
wasmtime-jit = "=0.8.0"
wasmtime-runtime = "=0.8.0"
sc-executor-common = "=0.8.0-alpha.2"
sp-core = "=2.0.1"
sp-externalities = "=0.8.1"
sp-runtime-interface = "=2.0.1"
sp-wasm-interface = "=2.0.1"
# Not used directly. sp-core 2.0 hands it types of schnorrkel 0.9, and does not compile with 0.4.6,
# which is built on another schnorrkel.
substrate-bip39 = "=0.4.2"
