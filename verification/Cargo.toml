[package]
name = "r6502"
version = "0.1.0"
edition = "2021"
publish = false

[dependencies]
anyhow = "1"
chrono = "0.4"
cursive = { version = "*", default-features = false, features = ["crossterm-backend"] }
log = "0.4"
path-absolutize = "3"
rkyv = "0.8"
serde = { version = "1", features = ["derive"] }
