[package]
name = "googauth_lib"
version = "0.1.0"
edition = "2021"
publish = false

[dependencies]
url = "2"
dirs = "*"
serde = { version = "1", features = ["derive"] }
serde_json = "1"
openidconnect = "3"
webbrowser = "*"
clap = "2"
