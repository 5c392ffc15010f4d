[package]
name = "myth_render"
version = "0.1.0"
edition = "2021"
publish = false

[dependencies]
rustc-hash = "*"
xxhash-rust = { version = "*", features = ["xxh3"] }
wgpu = { version = "*", default-features = false, features = ["wgsl"] }
minijinja = { version = "*", features = ["custom_syntax", "loader"] }
serde = { version = "*", features = ["derive"] }
smallvec = "*"
bytemuck = { version = "*", features = ["derive"] }
glam = "*"
bitflags = "*"
log = "*"
raw-window-handle = "*"
