[package]
name = "dual_quaternion"
version = "0.1.0"
edition = "2021"
publish = false

[dev-dependencies]
quaternion = "*"
