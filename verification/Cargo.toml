[package]
name = "raytrace"
version = "0.1.0"
edition = "2021"
publish = false

[dependencies]
cgmath = "0.18"
glium = "0.32"
glutin = "0.29"
image = { version = "0.24", default-features = false, features = ["png"] }
