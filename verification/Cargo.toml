[package]
name = "natnet_codec"
version = "0.1.0"
edition = "2021"
publish = false

[dependencies]
bincode = "1"
bytemuck = "*"
bytes = "*"
glam = { version = "*", features = ["serde", "bytemuck"] }
