[package]
name = "macpak"
version = "0.1.0"
edition = "2021"
publish = false

[dependencies]
chrono = "0.4"
rand = "0.8"
regex = "1"
roxmltree = "*"
serde_json = "1"
uuid = { version = "1", features = ["v4"] }
walkdir = "2"
