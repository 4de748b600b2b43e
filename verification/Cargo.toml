[package]
name = "moboy"
version = "0.1.0"
edition = "2021"
publish = false

[dependencies]
cpal = "*"
minifb = "*"
ringbuf = "*"
serde = { version = "1", features = ["derive"] }
toml = "*"
