[package]
name = "clockwork_mage"
version = "0.1.0"
edition = "2021"
publish = false

[dependencies]
clap = "2"
slog = "2"
sloggers = "2"
structopt = "0.3"
