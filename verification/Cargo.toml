[package]
name = "fluid_webgpu"
version = "0.1.0"
edition = "2021"
publish = false

[dependencies]
wgpu = "0.5"
zerocopy = "0.3"
rand = "0.7"
