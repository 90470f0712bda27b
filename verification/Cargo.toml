[package]
name = "peniko"
version = "0.1.0"
edition = "2021"
publish = false

[dependencies]
kurbo = "*"
linebender_resource_handle = "*"
serde = { version = "*", features = ["derive"] }
serde_bytes = "*"
smallvec = "*"
bytemuck = "*"
