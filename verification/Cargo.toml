[package]
name = "image_transfer"
version = "0.1.0"
edition = "2021"
publish = false

[dependencies]
anyhow = "1"
cap-std-ext = "*"
containers-image-proxy = "*"
fn-error-context = "*"
io-lifetimes = "*"
serde_json = "1"
tempfile = "3"
tokio = { version = "1", features = ["process", "rt", "io-util"] }
