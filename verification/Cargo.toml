[package]
name = "rusty_bird"
version = "0.1.0"
edition = "2021"
publish = false

[dependencies]
rand = "=0.7.3"
seed = "0.10.0"
serde = { version = "=1.0.229", features = ["derive"] }
