[package]
name = "rubik_cube"
version = "0.1.0"
edition = "2021"
publish = false

[dependencies]
rubik = "*"
bevy = { version = "=0.19.1", default-features = false, features = ["std", "keyboard", "async_executor"] }
