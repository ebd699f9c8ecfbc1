[package]
name = "wadlauncher"
version = "0.1.0"
edition = "2021"
publish = false

[dependencies]
wad = "=0.3.2"
regex = "=1.13.1"
serde = { version = "=1.0.229", features = ["derive"] }
serde_derive = "=1.0.229"
confy = "=2.0.0"
arboard = { version = "=3.7.0", default-features = false }
eframe = { version = "0.31", default-features = false, features = ["default_fonts", "glow", "wayland"] }
tinyfiledialogs = "=3.9.1"
