[package]
name = "experiments"
version = "0.1.0"
edition = "2021"
publish = false

[dependencies]
image = "0.24"
palette = "0.6"
rand = "0.8"
