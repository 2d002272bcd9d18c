[package]
name = "xtask"
version = "0.1.0"
edition = "2021"
publish = false

[dependencies]
anyhow = "1"
clap = { version = "4", features = ["derive"] }
dirs = "5"
fs_extra = "1"
reqwest = { version = "0.12", features = ["blocking"] }
zip = { version = "2", default-features = false, features = ["deflate"] }
