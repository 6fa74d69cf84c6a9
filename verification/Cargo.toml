[package]
name = "gfx_graphics"
version = "0.1.0"
edition = "2021"
publish = false

[dependencies]
gfx = "0.18"
piston2d-graphics = "*"
shader_version = "*"
piston-gfx_texture = "*"
