[package]
name = "theme_render"
version = "0.1.0"
edition = "2021"
publish = false

[dependencies]
markdown = "*"
minijinja = "*"
serde = { version = "*", features = ["derive"] }
serde_json = "*"
