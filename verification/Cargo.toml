[package]
name = "pricing_kit"
version = "0.1.0"
edition = "2021"
publish = false

[dependencies]
rust_decimal = "*"
rust_decimal_macros = "*"
serde = { version = "*", features = ["derive"] }
thiserror = "*"
