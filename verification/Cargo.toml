[package]
name = "scenic_driver_skia"
version = "0.1.0"
edition = "2021"
publish = false
