[package]
name = "b2_writer"
version = "0.1.0"
edition = "2021"
publish = false

[dependencies]
async-trait = "0.1"
http = "0.2.9"
serde = { version = "1", features = ["derive"] }
serde_json = "1"
