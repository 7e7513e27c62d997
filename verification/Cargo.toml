[package]
name = "leafy_hollows"
version = "0.1.0"
edition = "2021"
publish = false

[dependencies]
directories = "*"
gl = "*"
image = "*"
sdl2 = "*"
