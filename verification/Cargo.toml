[package]
name = "sparrow"
version = "0.1.0"
edition = "2021"
publish = false

[dependencies]
rand = "=0.10.3"
rand_distr = "=0.6.0"
jagua-rs = "=0.6.4"
serde_json = "=1.0.154"
log = "=0.4.35"
jni = "=0.21.1"
wasm-bindgen = "=0.2.130"
console_error_panic_hook = "=0.1.7"
wasm-logger = "=0.2.0"
