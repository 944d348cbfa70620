[package]
name = "traffic_harness"
version = "0.1.0"
edition = "2021"
publish = false

[dependencies]
rand = "=0.8.8"
fuel-core-types = { version = "=0.48.3", features = ["random", "test-helpers"] }
