[package]
name = "render_visibility"
version = "0.1.0"
edition = "2021"
publish = false
