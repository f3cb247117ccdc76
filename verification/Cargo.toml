[package]
name = "vfox_plugin"
version = "0.1.0"
edition = "2021"
publish = false

[dependencies]
console = "0.15"
eyre = "0.6"
indexmap = "2"
once_cell = "1"
tokio = { version = "1", features = ["rt", "time", "net"] }
toml = "0.8"
url = "2"
vfox = "*"
