[package]
name = "btpanel"
version = "0.1.0"
edition = "2021"
publish = false

[dependencies]
anyhow = "*"
arc-swap = "*"
bluer = { version = "*", features = ["bluetoothd"] }
crossbeam = "*"
sdl2 = { version = "*", features = ["ttf"] }
tokio = { version = "*", features = ["rt", "macros", "sync", "time"] }
tokio-stream = "*"
tracing = "*"
tracing-subscriber = "*"
