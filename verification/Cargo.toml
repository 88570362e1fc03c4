[package]
name = "grid_explorer"
version = "0.1.0"
edition = "2021"
publish = false

[dependencies]
godot = "*"
rand = "0.9"
serde = { version = "1", features = ["derive"] }
serde_json = "1"
thiserror = "2"
