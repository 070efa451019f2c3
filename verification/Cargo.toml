[package]
name = "snake_ai"
version = "0.1.0"
edition = "2021"
publish = false

[dependencies]
rand = "0.9"
piston = "*"
pistoncore-glutin_window = "*"
piston2d-opengl_graphics = "*"
piston2d-graphics = "*"
gl = "*"
