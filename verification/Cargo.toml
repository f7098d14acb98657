[package]
name = "intel8080"
version = "0.1.0"
edition = "2021"
publish = false

[dependencies]
anyhow = "1"
clap = { version = "4", features = ["derive"] }
rodio = { version = "0.20", default-features = false, features = ["wav"] }
sdl2 = "0.37"
thiserror = "1"
