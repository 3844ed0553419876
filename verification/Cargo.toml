[package]
name = "deprank"
version = "0.1.0"
edition = "2021"
publish = false

[dependencies]
ghrepo = "*"
uuid = { version = "1", features = ["v4"] }
serde = { version = "1", features = ["derive"] }
serde_json = "1"
