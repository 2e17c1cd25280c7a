[package]
name = "asha_reconnect"
version = "0.1.0"
edition = "2021"
publish = false

[dependencies]
bluer = { version = "*", features = ["bluetoothd"] }
futures = "0.3"
mpris = "*"
tokio = { version = "1", features = ["macros", "rt", "time"] }
