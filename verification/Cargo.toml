[package]
name = "listenbrainz"
version = "0.8.1"
edition = "2021"

[dependencies]
attohttpc = { version = "*", default-features = false }
serde = { version = "1", features = ["derive"] }
serde_json = "1"
thiserror = "1"
ureq = { version = "2", default-features = false }
