[package]
name = "hunting_crustaceans"
version = "0.1.0"
edition = "2021"
publish = false

[dependencies]
bevy = { version = "=0.5.0", default-features = false }
bevy_rapier2d = { version = "=0.9.0", default-features = false, features = ["dim2"] }
darling = "=0.10.2"
rand = "=0.8.8"
