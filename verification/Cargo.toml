[package]
name = "qox"
version = "0.1.0"
edition = "2021"
publish = false

[dependencies]
chrono = "*"
libm = "*"
nalgebra = "*"
num-dual = "*"
thiserror = "*"
