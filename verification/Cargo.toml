[package]
name = "pixel_convert"
version = "0.1.0"
edition = "2021"
publish = false

[dependencies]
anyhow = "*"
bytemuck = "*"
image = { version = "*", default-features = false, features = ["png", "jpeg"] }
num-traits = "*"
tiff = "*"
