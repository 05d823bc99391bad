[package]
name = "gameboy"
version = "0.1.0"
edition = "2021"
publish = false

[dependencies]
log = "0.4"
pretty-hex = "*"
sdl2 = "*"
serde = { version = "1", features = ["derive"] }
serde_json = "1"
simplelog = "*"
