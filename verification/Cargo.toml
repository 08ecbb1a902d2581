[package]
name = "passwordgenerator"
version = "0.1.0"
edition = "2021"
publish = false

[dependencies]
rand = "0.8"
serde = { version = "1", features = ["derive"] }
serde_json = "1"
glib = "0.18"
gio = "0.18"
gtk4 = "0.7"
