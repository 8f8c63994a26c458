[package]
name = "image_gen"
version = "0.1.0"
edition = "2021"
publish = false

[dependencies]
base64 = "=0.23.1"
image = { version = "=0.25.10", default-features = false, features = ["png", "jpeg", "gif", "webp", "bmp"] }
resvg = "=0.49.0"
usvg = "=0.49.0"
tiny-skia = "=0.12.0"
skia-safe = { version = "=0.153.3", features = ["textlayout"] }
reqwest = { version = "=0.13.5", features = ["json"] }
serde = { version = "=1.0.229", features = ["derive"] }
serde_json = "=1.0.154"
