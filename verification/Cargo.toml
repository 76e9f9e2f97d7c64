[package]
name = "family_tree"
version = "0.1.0"
edition = "2021"
publish = false

[dependencies]
serde_json = "1"
serde = { version = "1", features = ["derive"] }
csv = "1"
rand = "0.8"
log = "0.4"
fern = "0.6"
chrono = "0.4"
