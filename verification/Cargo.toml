[package]
name = "rcarve"
version = "0.1.0"
edition = "2021"
publish = false

[dependencies]
anyhow = "1"
cavalier_contours = "*"
clipper2 = "*"
dirs = "*"
geo = "*"
geo-buffer = "*"
kurbo = { version = "*", features = ["serde"] }
serde = { version = "1", features = ["derive"] }
serde_json = "1"
tiny-skia-path = "*"
ulid = { version = "1", features = ["serde"] }
usvg = "*"
