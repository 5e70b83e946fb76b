[package]
name = "part_upload"
version = "0.1.0"
edition = "2021"
publish = false

[dependencies]
js-sys = "0.3"
wasm-bindgen = "0.2"
wasm-bindgen-futures = "0.4"
web-sys = { version = "0.3", features = ["Blob", "File", "FileReaderSync", "Headers", "Request", "RequestInit", "RequestMode", "Response", "Window"] }
