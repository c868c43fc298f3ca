[package]
name = "gfx_pipeline"
version = "0.1.0"
edition = "2021"
publish = false

[dependencies]
cgmath = "=0.18.0"
gfx = "=0.7.2"
gfx_phase = "0.5"
