[package]
name = "raytracer_rs"
version = "0.1.0"
edition = "2021"
publish = false

[dependencies]
vulkano = "0.20"
minifb = "0.19"
nalgebra = "0.24"
