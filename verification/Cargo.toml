[package]
name = "gw2buffbar"
version = "0.1.0"
edition = "2021"
publish = false

[dependencies]
arcdps = "*"
config = "*"
libloading = "*"
log = "*"
once_cell = "*"
serde = { version = "1", features = ["derive"] }
