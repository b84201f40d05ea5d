[package]
name = "verlet2d"
version = "0.1.0"
edition = "2021"
publish = false

[dependencies]
fxhash = "0.2"
serial_int = "*"
softfloat = "*"
serde = { version = "1", features = ["derive"] }
wasm-bindgen = { version = "0.2", features = ["serde-serialize"] }
lazy_static = "1"
wee_alloc = "0.4"
