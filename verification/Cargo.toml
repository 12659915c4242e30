[package]
name = "render_core"
version = "0.1.0"
edition = "2021"
publish = false

[dependencies]
regex = "1"
gl = "0.14"
glutin = "0.28"
nalgebra-glm = "*"
png = "0.16"
rand = "0.8"
lazy_static = "1.4"
bitflags = "1"
