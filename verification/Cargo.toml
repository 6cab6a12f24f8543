[package]
name = "white-dragon"
version = "0.1.0"
edition = "2021"
publish = false

[dependencies]
clap = { version = "4", features = ["derive"] }
objc2 = "0.6"
objc2-app-kit = "0.3"
objc2-foundation = "0.3"
