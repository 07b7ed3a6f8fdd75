[package]
name = "resource_metering"
version = "0.1.0"
edition = "2021"
publish = false

[dependencies]
crossbeam = "0.8"
futures = { version = "0.3", features = ["thread-pool"] }
futures-timer = "3"
