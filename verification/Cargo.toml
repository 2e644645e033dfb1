[package]
name = "melt_desktop"
version = "0.1.0"
edition = "2021"
publish = false

[dependencies]
serde = { version = "1", features = ["derive"] }
toml = "*"
tracing = "0.1"
smithay = { version = "*", default-features = false, features = ["desktop", "wayland_frontend", "renderer_gl"] }
