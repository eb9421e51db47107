[package]
name = "sombra"
version = "0.1.0"
edition = "2021"
publish = false

[dependencies]
dunce = "*"
whoami = "*"
colored = "*"
structopt = "*"
windows-service = "*"
