[package]
name = "finance_calc"
version = "0.1.0"
edition = "2021"
publish = false

[dependencies]
serde = { version = "1", features = ["derive"] }
serde_json = "1"
worker = "*"
console_error_panic_hook = "0.1"
