[package]
name = "mrktools"
version = "0.1.0"
edition = "2021"
publish = false

[dependencies]
image = "0.23"
uuid = { version = "1", features = ["v4"] }
printpdf = { version = "0.3", features = ["embedded_images"] }
argh = "0.1"
serde = { version = "1", features = ["derive"] }
serde_json = "1"
walkdir = "2"
log = "0.4"
pretty_env_logger = "0.4"
