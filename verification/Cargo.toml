[package]
name = "quant_core"
version = "0.1.0"
edition = "2021"
publish = false

[dependencies]
statrs = "*"
tokio = { version = "*", features = ["rt-multi-thread"] }
yahoo_finance_api = "*"
