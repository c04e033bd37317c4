[package]
name = "codchi"
version = "0.1.0"
edition = "2021"
publish = false

[dependencies]
anyhow = "=1.0.104"
image = { version = "=0.24.9", default-features = false, features = ["png"] }
indicatif = "=0.17.11"
inquire = "=0.7.5"
itertools = "=0.12.1"
log = "=0.4.34"
serde = { version = "1", features = ["derive"] }
serde_json = "1"
strum = { version = "=0.26.3", features = ["derive"] }
tao = "=0.37.2"
tray-icon = "=0.26.1"
