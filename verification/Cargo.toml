[package]
name = "divvunspell"
version = "0.1.0"
edition = "2021"
publish = false

[dependencies]
memmap = "0.7"
tempdir = "0.3"
serde = { version = "1", features = ["derive"] }
serde_json = "1"
csv = "1"
clap = "2"
structopt = "0.3"
rayon = "1"
indicatif = { version = "0.15", features = ["with_rayon"] }
