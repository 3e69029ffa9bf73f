[package]
name = "fractal_nav"
version = "0.1.0"
edition = "2021"
publish = false

[dependencies]
glam = "*"
bytemuck = { version = "*", features = ["derive"] }
