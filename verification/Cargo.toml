[package]
name = "tetris_core"
version = "0.1.0"
edition = "2021"
publish = false

[dependencies]
num-format = "0.4"
confy = { version = "0.6", default-features = false, features = ["yaml_conf"] }
serde = { version = "1", features = ["derive"] }
sdl2 = { version = "0.35", features = ["mixer"] }
