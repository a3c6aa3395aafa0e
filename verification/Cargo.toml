[package]
name = "barcode_scanner"
version = "0.1.0"
edition = "2021"
publish = false

[dependencies]
dotenv = "0.15"
evdev = "0.13"
reqwest = "0.12"
tokio = { version = "1", features = ["macros", "rt-multi-thread"] }
