[package]
name = "ramp_maker"
version = "0.1.0"
edition = "2021"
publish = false

[dependencies]
az = "*"
fixed = { version = "*", features = ["num-traits"] }
fixed-sqrt = "*"
num-traits = "*"
typenum = "*"
