[package]
name = "ray_tracer"
version = "0.2.0"
edition = "2021"
publish = false

[dependencies]
cgmath = "0.16"
rand = "0.4"
clap = "2"
image = "0.19"
rayon = "1"
