[package]
name = "xi-term"
version = "0.1.0"
edition = "2021"
publish = false

[dependencies]
termion = "1.5"
indexmap = "1"
shellexpand = "2"
xrl = "0.0"
futures = "0.1"
tokio = "0.1"
failure = "0.1"
log = "0.4"
log4rs = "0.8"
clap = "2"
xdg = "2"
serde = { version = "1", features = ["derive"] }
serde_json = "1"
json5 = "0.2"
