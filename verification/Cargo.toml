[package]
name = "cutout"
version = "0.1.0"
edition = "2021"
publish = false

[dependencies]
image = "=0.24.9"
axum = { version = "=0.7.9", features = ["macros"] }
tokio = { version = "1", features = ["full"] }
tower-http = { version = "=0.5.2", features = ["cors", "fs"] }
candle-core = "=0.4.1"
candle-nn = "=0.4.1"
candle-transformers = "=0.4.1"
candle-examples = "=0.4.1"
half = "=2.4.1"
