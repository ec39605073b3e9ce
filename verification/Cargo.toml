[package]
name = "entity_grid"
version = "0.1.0"
edition = "2021"
publish = false

[dependencies]
rand = "*"
bevy = { version = "*", default-features = false }
