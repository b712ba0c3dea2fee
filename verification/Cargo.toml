[package]
name = "render_engine"
version = "0.1.0"
edition = "2021"
publish = false

[dependencies]
anyhow = "1"
bevy_mikktspace = "*"
futures-intrusive = "0.5"
glam = { version = "*", features = ["zerocopy"] }
gltf = "1.4"
image = { version = "0.25", default-features = false, features = ["png"] }
log = "0.4"
pollster = "0.4"
thiserror = "2"
wgpu = "27"
zerocopy = { version = "0.8", features = ["derive"] }

[dev-dependencies]
naga = { version = "27", features = ["wgsl-in"] }
