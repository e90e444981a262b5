[package]
name = "printavo"
version = "0.1.0"
edition = "2021"
publish = false

[dependencies]
secrecy = "0.8"
serde_json = "1"
url = "2"
zeroize = "1"
serde = { version = "1", features = ["derive"] }
reqwest = { version = "0.12", default-features = false, features = ["json"] }
time = { version = "0.3", features = ["formatting"] }
