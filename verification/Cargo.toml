[package]
name = "twofauth_client"
version = "0.1.0"
edition = "2021"
publish = false

[dependencies]
reqwest = { version = "=0.13.5", default-features = false, features = ["json"] }
httpdate = "=1.0.3"
gettext-rs = { version = "=0.8.0", features = ["gettext-system"] }
serde = { version = "=1.0.229", features = ["derive"] }
serde_json = "=1.0.154"
toml = "=1.1.8"
anyhow = "=1.0.104"
dirs = "=7.0.0"
tokio = { version = "=1.54.1", features = ["rt-multi-thread"] }
keyring = "=4.2.0"
keyring-core = "=1.0.1"
gtk4 = "=0.11.5"
libadwaita = { version = "=0.9.2", features = ["v1_5"] }
gdk-pixbuf = "=0.22.0"
