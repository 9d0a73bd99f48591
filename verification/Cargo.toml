[package]
name = "gb_core"
version = "0.1.0"
edition = "2021"
publish = false

[dependencies]
glium = "0.34"
glutin = "0.31"
winit = "0.29"
log = "0.4"
simple-logging = "2"
