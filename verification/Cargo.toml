[package]
name = "pomodorust"
version = "0.1.0"
edition = "2021"
publish = false

[dependencies]
directories = "5"
glib = "0.18"
gtk = "0.18"
image = { version = "0.25", default-features = false, features = ["png"] }
libappindicator = "0.9"
serde = { version = "1", features = ["derive"] }
toml = "0.8"
tray-icon = "0.19"
