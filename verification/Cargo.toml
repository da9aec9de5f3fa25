[package]
name = "game_logic"
version = "0.1.0"
edition = "2021"
publish = false

[dependencies]
gdnative = "0.8"
