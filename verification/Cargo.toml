[package]
name = "econosim_bevy"
version = "0.1.0"
edition = "2021"
publish = false

[dependencies]
itertools = "0.14"
rand = "0.9"
ordered-float = "5"
serde = { version = "1", features = ["derive"] }
bevy = { version = "0.17", default-features = false, features = ["std"] }
