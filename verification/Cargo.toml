[package]
name = "kle_serial"
version = "0.1.0"
edition = "2021"
publish = false

[dependencies]
num-traits = "0.2"
rgb = { version = "0.8", default-features = false }
serde = { version = "1.0", features = ["derive"] }

[dev-dependencies]
serde_json = "1.0"
