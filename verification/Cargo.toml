[package]
name = "wit_roundtrip"
version = "0.1.0"
edition = "2021"
publish = false

[dependencies]
arbitrary = "=1.4.2"
id-arena = "=2.3.0"
wasmparser = "=0.261.0"
wasmprinter = "=0.261.0"
wit-component = { version = "=0.261.0", features = ["dummy-module"] }
wit-parser = "=0.261.0"
wit-smith = "=0.261.0"

[dev-dependencies]
wasm-encoder = "=0.261.0"
wasm-metadata = "=0.261.0"
wat = "=1.261.0"
