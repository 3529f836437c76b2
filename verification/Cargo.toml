[package]
name = "rust_hexdump"
version = "1.0.1"
edition = "2021"
publish = false

[dependencies]
clap = { version = "4", features = ["derive"] }
