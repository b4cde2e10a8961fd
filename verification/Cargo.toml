[package]
name = "people_repo"
version = "0.1.0"
edition = "2021"
publish = false

[dependencies]
anyhow = "1"
base64 = "*"
relm4 = "*"
rusqlite = "*"
tracing = "0.1"
