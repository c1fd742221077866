[package]
name = "text_animator"
version = "0.1.0"
edition = "2021"
publish = false

[dependencies]
utf8_slice = "*"
bevy = { version = "*", default-features = false }
