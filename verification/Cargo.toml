[package]
name = "recipe_updater"
version = "0.1.0"
edition = "2021"
publish = false

[dependencies]
regex = "1"
serde = { version = "1", features = ["derive"] }
serde_yaml = "0.9"
reqwest = { version = "0.12", features = ["blocking", "json"] }
jwalk = "0.8"
dirs = "5"
