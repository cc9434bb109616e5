[package]
name = "rover"
version = "0.1.0"
edition = "2021"
publish = false

[dependencies]
url = "2"
serde = { version = "1", features = ["derive"] }
serde_json = "1"
structopt = "0.3"
prettytable-rs = "0.10"
atty = "0.2"
tracing = "0.1"
