[package]
name = "tick_codec"
version = "0.1.0"
edition = "2021"
publish = false

[dependencies]
tick-encoding = "*"
schemars = "1"
serde = "1"
serde_with = { version = "3", features = ["schemars_1"] }
