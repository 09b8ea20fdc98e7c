[package]
name = "ssh_tool"
version = "1.0.0"
edition = "2021"
publish = false

[dependencies]
anyhow = "1"
clap = "2"
dialoguer = "0.10"
serde = "1"
serde_derive = "1"
toml = "0.5"
