[package]
name = "udman"
version = "0.1.0"
edition = "2021"
publish = false

[dependencies]
dbus = "0.9"
dialog = "0.3"
serde = { version = "1", features = ["derive"] }
toml = "0.5"
xdg = "2"
