[package]
name = "editor_core"
version = "0.1.0"
edition = "2021"
publish = false

[dependencies]
fxhash = "0.2"
parking_lot = "0.12"
serde = { version = "1", features = ["derive"] }
