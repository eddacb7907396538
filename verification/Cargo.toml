[package]
name = "peniko"
version = "0.1.0"
edition = "2021"
publish = false

[dependencies]
rustc_apfloat = "*"
fast-srgb8 = "1"
smallvec = "1"
kurbo = "*"
palette = "*"
serde = { version = "1", features = ["derive"] }
bytemuck = { version = "1", features = ["derive"] }
