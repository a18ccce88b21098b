[package]
name = "rapidraw"
version = "0.1.0"
edition = "2021"
publish = false

[dependencies]
anyhow = "1"
half = "2"
image = { version = "0.25", default-features = false }
objc2-core-foundation = "*"
objc2-core-graphics = "*"
objc2-image-io = "*"
once_cell = "1"
rawler = "*"
reverse_geocoder = "*"
serde = { version = "1", features = ["derive"] }
serde_json = "1"
tokio = { version = "1", features = ["sync", "rt"] }
