[package]
name = "textbuf"
version = "0.1.0"
edition = "2021"
publish = false

[dependencies]
ropey = { version = "1", default-features = false }
tokio = { version = "1", features = ["sync", "rt"] }
parking_lot = "0.12"
async-trait = "0.1"
