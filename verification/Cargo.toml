[package]
name = "ui_debug_overlay"
version = "0.1.0"
edition = "2021"
publish = false

[dependencies]
bevy_color = "0.16"
