[package]
name = "apikit"
version = "0.1.0"
edition = "2021"
publish = false

[dependencies]
iced = { version = "=0.13.1", default-features = false, features = ["advanced", "highlighter", "tiny-skia", "tokio"] }
reqwest = { version = "=0.12.28", default-features = false, features = ["rustls-tls"] }
