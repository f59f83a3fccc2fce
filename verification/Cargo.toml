[package]
name = "un_avatar_render"
version = "0.1.0"
edition = "2021"
publish = false

[dependencies]
bytemuck = "=1.25.2"
half = "=2.7.1"
image = { version = "=0.25.10", default-features = false, features = ["png", "jpeg", "webp", "tga", "bmp", "gif"] }
serde = { version = "=1.0.229", features = ["derive"] }
serde_json = "=1.0.154"
