[package]
name = "exit_future"
version = "0.1.0"
edition = "2021"
publish = false

[dependencies]
broadcaster = "1"
futures = { version = "0.3", features = ["thread-pool"] }

[dev-dependencies]
futures-timer = "3"
