[package]
name = "watchfile"
version = "0.1.0"
edition = "2021"
publish = false

[dependencies]
chrono = "0.4"
lettre = "0.11"
serde = { version = "1", features = ["derive"] }
ssh2 = "0.9"
toml = "0.8"
