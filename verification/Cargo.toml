[package]
name = "ferrink"
version = "0.1.0"
edition = "2021"
publish = false

[dependencies]
csv = "1"
damascene-fonts-inter = "*"
libc = "0.2"
png = "0.18"
serde = { version = "1", features = ["derive"] }
serde_json = "1"
slint = { version = "1.18", default-features = false, features = ["std", "compat-1-2"] }
toml = "*"
