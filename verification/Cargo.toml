[package]
name = "clearing_house"
version = "0.1.0"
edition = "2021"
publish = false

[dependencies]
pyth-client = "=0.2.2"
switchboard-v2 = "=0.4.0"

[dev-dependencies]
anchor-lang = "=0.28.0"
bytemuck = "=1.25.2"
num-integer = "=0.1.47"
