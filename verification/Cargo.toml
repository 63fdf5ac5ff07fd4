[package]
name = "queue_playlist_maker"
version = "0.1.0"
edition = "2021"
publish = false

[dependencies]
base64 = "0.21"
eframe = { version = "0.23", default-features = false, features = ["default_fonts", "glow"] }
egui_extras = { version = "0.23", features = ["image"] }
env_logger = "0.10"
image = { version = "0.24", default-features = false, features = ["png"] }
rayon = "1"
reqwest = { version = "0.11", features = ["blocking"] }
serde = { version = "1", features = ["derive"] }
serde_json = { version = "1", features = ["preserve_order"] }
