[package]
name = "monte_carlo_view_factors"
version = "0.1.0"
edition = "2021"

[dependencies]
glam = "0.24"
rand = "0.8"
rayon = "1"
kiss3d = "0.35"
