[package]
name = "rgsl"
version = "8.0.0"
edition = "2021"
publish = false
