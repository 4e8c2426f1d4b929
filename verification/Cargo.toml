[package]
name = "media_core"
version = "0.1.0"
edition = "2021"
publish = false

[dependencies]
image = { version = "*", features = ["avif"] }
fast_image_resize = "*"
kamadak-exif = "*"
urlencoding = "*"
axum = "*"
reqwest = { version = "*", default-features = false }
serde = { version = "*", features = ["derive"] }
serde_json = "*"
bytes = "*"
tokio = { version = "*", features = ["rt-multi-thread", "macros", "net"] }
