[package]
name = "watermark"
version = "0.1.0"
edition = "2021"
publish = false

[dependencies]
ab_glyph = "*"
anyhow = "*"
image = "*"
imageproc = "*"
serde = { version = "*", features = ["derive"] }
serde_json = "*"
