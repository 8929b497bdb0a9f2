[package]
name = "egui-nav"
version = "0.1.0"
edition = "2021"
publish = false

[dependencies]
egui = { version = "0.31", default-features = false }
