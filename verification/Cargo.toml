[package]
name = "rad1"
version = "0.2.0"
edition = "2021"
publish = false

[dependencies]
chess = "3.2"
rand = "0.8"
clap = "2"
ansi_term = "0.12"
itertools = "0.10"
serde = { version = "1", features = ["derive"] }
serde_json = "1"
