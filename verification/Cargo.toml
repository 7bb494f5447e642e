[package]
name = "matrix_visualizer"
version = "0.1.0"
edition = "2021"
publish = false

[dependencies]
failure = "0.1"
glium = "0.25"
ndarray = "0.12"
