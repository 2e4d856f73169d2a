[package]
name = "rg3d_sound_sdl"
version = "0.1.0"
edition = "2021"
publish = false

[dependencies]
rg3d-sound = "*"
sdl2 = "*"
static_assertions = "1"
