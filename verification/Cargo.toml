[package]
name = "label_pdf"
version = "0.1.0"
edition = "2021"
publish = false

[dependencies]
base64 = "=0.21.7"
opener = "0.8"
serde = { version = "1", features = ["derive"] }
tempfile = "3"
