[package]
name = "endless_jumper"
version = "0.1.0"
edition = "2021"
publish = false

[dependencies]
bevy = { version = "0.14", default-features = false }
rand = "0.8"
rand_distr = "0.4"
