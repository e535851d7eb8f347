[package]
name = "eren"
version = "0.1.0"
edition = "2021"
publish = false

[dependencies]
clap = { version = "3", features = ["cargo"] }
hex = "0.4"
isahc = "1"
once_cell = "1"
regex = "1"
serde_json = "1"
skim = "0.10"
tokio = { version = "1", features = ["rt-multi-thread", "macros", "sync"] }
url = "2"
