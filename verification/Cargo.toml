[package]
name = "melos"
version = "0.1.0"
edition = "2021"
publish = false

[dependencies]
config = "0.9"
failure = "0.1"
gfx = "0.18"
gfx_window_glutin = "0.30"
glutin = "0.20"
ignore = "0.4"
imgui = "0.0.23"
imgui-gfx-renderer = "0.0.23"
lazy_static = "1"
rodio = "0.7"
serde = "1"
serde_derive = "1"
serde_json = "1"
