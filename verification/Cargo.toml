[package]
name = "movie_db"
version = "0.1.0"
edition = "2021"
publish = false

[dependencies]
reqwest = { version = "0.11", features = ["blocking", "json"] }
rusqlite = "0.24"
chrono = "0.4"
serde = { version = "1", features = ["derive"] }
bytes = "1"
