[package]
name = "undivey"
version = "0.1.0"
edition = "2021"
publish = false

[dependencies]
bevy = { version = "=0.5.0", default-features = false, features = ["bevy_wgpu", "bevy_winit", "render", "png", "x11"] }
# Bevy's derive crates need syn's "full" feature and do not ask for it;
# darling's macro crate does, which turns it on for them.
darling = "=0.10.2"
