[package]
name = "disco"
version = "0.1.0"
edition = "2021"
publish = false

[dependencies]
clap = { version = "*", features = ["derive", "env"] }
dirs = "*"
discord-rich-presence = "*"
log = "*"
mlua = { version = "*", features = ["lua54", "vendored"] }
simplelog = "*"
