[package]
name = "camera_pose"
version = "0.1.0"
edition = "2021"
publish = false

[dependencies]
anyhow = "=1.0.104"
bevy = { version = "=0.10.1", default-features = false, features = ["serialize"] }
bevy_rapier3d = { version = "=0.21.0", default-features = false, features = ["dim3", "async-collider"] }
serde = { version = "=1.0.229", features = ["derive"] }

[dev-dependencies]
glam = "=0.23.0"
