[package]
name = "lsystem3d"
version = "0.1.0"
edition = "2021"
publish = false

[dependencies]
clap = "*"
minifb = "*"
serde = { version = "*", features = ["derive"] }
serde_json = "*"
