[package]
name = "pve_launcher"
version = "0.1.0"
edition = "2021"
publish = false

[dependencies]
urlencoding = "2"
uuid = { version = "1", features = ["v4"] }
reqwest = { version = "0.12", features = ["json"] }
serde = { version = "1", features = ["derive"] }
serde_json = "1"
thiserror = "1"
directories = "5"
keyring = "3"
relm4 = { version = "*", features = ["libadwaita"] }
libadwaita = "*"
