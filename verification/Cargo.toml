[package]
name = "canvas_strokes"
version = "0.1.0"
edition = "2021"
publish = false

[dependencies]
base64 = "0.13"
image = "0.23"
tera = { version = "1", default-features = false }
serde = { version = "1", features = ["derive"] }
nalgebra = { version = "0.29", features = ["serde-serialize"] }
parry2d-f64 = { version = "0.7", features = ["serde-serialize"] }
gtk4 = "0.3"
log = "0.4"
