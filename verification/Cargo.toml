[package]
name = "crypto_container"
version = "0.1.0"
edition = "2021"
publish = false

[dependencies]
sha2 = "=0.11.0"
getrandom = "=0.4.3"
clap = { version = "=4.6.7", features = ["derive"] }
docx-rs = "=0.4.22"
file-format = { version = "=0.29.0", features = ["reader"] }
