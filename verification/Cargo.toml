[package]
name = "nrf70"
version = "0.1.0"
edition = "2021"
publish = false

[dependencies]
embassy-sync = { version = "0.6", features = ["std"] }
embassy-time = { version = "0.4", features = ["std"] }
heapless = "0.8"
futures = { version = "0.3", default-features = false, features = ["std"] }
