[package]
name = "platformer"
version = "0.1.0"
edition = "2021"
publish = false

[dependencies]
rand = "0.8"
glium = "0.32"
gl = "0.14"
sdl2 = "0.35"
