[package]
name = "automl"
version = "0.1.0"
edition = "2021"
publish = false

[dependencies]
smartcore = { version = "0.2", features = ["serde"] }
bincode = "1"
ndarray = "0.15"
comfy-table = "*"
humantime = "*"
