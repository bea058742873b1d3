[package]
name = "syncyam"
version = "0.1.0"
edition = "2021"
publish = false

[dependencies]
nanoid = "0.4"
parking_lot = "0.12"
tokio = { version = "1", features = ["rt-multi-thread"] }
