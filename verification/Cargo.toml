[package]
name = "material_binder"
version = "0.1.0"
edition = "2021"
publish = false

[dependencies]
hashbrown = "0.7"
wgpu = "0.5"
