[package]
name = "media_chords"
version = "0.1.0"
edition = "2021"
publish = false

[dependencies]
anyhow = "*"
clap = { version = "*", features = ["derive"] }
clap-verbosity-flag = "*"
log = "*"
log4rs = "*"
rdev = "*"
