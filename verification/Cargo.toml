[package]
name = "bls_sig"
version = "0.1.0"
edition = "2021"
publish = false

[dependencies]
blstrs = "0.7"
group = "0.13"
sha2 = "0.10"
subtle = "2"
wasm-bindgen = "0.2"
js-sys = "0.3"
web-sys = { version = "0.3", features = ["Window", "Crypto"] }
console_error_panic_hook = "*"
