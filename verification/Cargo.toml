[package]
name = "order_model"
version = "0.1.0"
edition = "2021"
publish = false

[dependencies]
ustr = "*"
rust_decimal = "*"
serde = { version = "1", features = ["derive"] }
