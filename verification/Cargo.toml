[package]
name = "git-remote-gemini"
version = "0.1.0"
edition = "2021"
publish = false

[dependencies]
native-tls = "0.2"
structopt = "0.3"
url = "2"
