[package]
name = "texture_synthesis_adapter"
version = "0.1.0"
edition = "2021"
publish = false

[dependencies]
image = "0.23"
imageproc = "0.22"
texture-synthesis = "0.8"
num_cpus = "1"
ndarray = "0.15"
ndarray-stats = "0.5"
