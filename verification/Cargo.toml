[package]
name = "batch2d"
version = "0.1.0"
edition = "2021"
publish = false

[dependencies]
gl = "*"
sdl2 = "*"
rusttype = "*"
stb_image = "*"
rodio = "*"
