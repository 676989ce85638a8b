[package]
name = "unzipper"
version = "0.1.0"
edition = "2021"
publish = false

[dependencies]
zip = "*"
flate2 = "*"
tar = "*"
sevenz-rust = "*"
clap = { version = "*", features = ["derive"] }
ctrlc = "*"
notify = "*"
fs2 = "*"
walkdir = "*"
