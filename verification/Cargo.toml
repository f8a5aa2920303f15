[package]
name = "fishcart"
version = "0.1.0"
edition = "2021"
publish = false

[dependencies]
bevy = { version = "0.12", default-features = false, features = ["bevy_asset"] }
bevy_rapier2d = { version = "0.23", default-features = false, features = ["dim2"] }
rand = "0.8"
