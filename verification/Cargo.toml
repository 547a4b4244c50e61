[package]
name = "sw_galaxy_map"
version = "0.8.0"
edition = "2021"
publish = false

[dependencies]
rusqlite = { version = "*", features = ["bundled"] }
sha2 = "*"
hex = "*"
owo-colors = "*"
atty = "*"
unicode-normalization = "*"
serde = { version = "*", features = ["derive"] }
serde_json = "*"
clap = { version = "*", features = ["derive"] }
anyhow = "*"
directories = "*"
