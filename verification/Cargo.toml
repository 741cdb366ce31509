[package]
name = "rustblue"
version = "0.1.0"
edition = "2021"
publish = false

[dependencies]
bluer = { version = "*", features = ["bluetoothd"] }
tokio = { version = "*", features = ["rt-multi-thread", "macros", "time"] }
futures = "*"
