[package]
name = "nucleid"
version = "0.1.0"
edition = "2021"
publish = false

[dependencies]
rustix = "*"
memmap = "*"
fixed = "*"
bytemuck = "*"
thiserror = "*"
