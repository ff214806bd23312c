[package]
name = "frame_sync"
version = "0.1.0"
edition = "2021"
publish = false

[dependencies]
gfx-hal = "=0.9.0"
gfx-backend-vulkan = "=0.9.0"
winit = "=0.25.0"
