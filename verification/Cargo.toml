[package]
name = "iqos_ble"
version = "0.1.0"
edition = "2021"
publish = false

[dependencies]
anyhow = "*"
btleplug = "*"
futures = "*"
tokio = { version = "*", features = ["sync", "rt-multi-thread", "macros", "time"] }
uuid = "*"
