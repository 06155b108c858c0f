[package]
name = "render_core"
version = "0.1.0"
edition = "2021"
publish = false

[dependencies]
nalgebra = "=0.31.4"
ktx2 = "=0.3.0"
wgpu = { version = "=0.13.1", features = ["spirv"] }
winit = "=0.27.5"
bevy_ecs = "=0.8.1"
tobj = "=3.2.5"
bytemuck = "=1.25.2"
rand = "=0.8.8"
log = "=0.4.34"
simple_logger = "=2.3.0"
