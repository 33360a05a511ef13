[package]
name = "eye-core"
version = "0.1.0"
edition = "2021"
publish = false

[dependencies]
bytemuck = { version = "1", features = ["derive"] }
egui = "0.31"
serde = { version = "1", features = ["derive"] }
serde_json = "1"
wgpu = "24"
