[package]
name = "hp3457_dump"
version = "0.1.0"
edition = "2021"
publish = false

[dependencies]
clap = { version = "4", features = ["derive"] }
indicatif = "*"
miette = { version = "*", features = ["fancy"] }
tokio = { version = "1", features = ["fs", "io-util", "macros", "rt-multi-thread"] }
