[package]
name = "learn_ui"
version = "0.1.0"
edition = "2021"
publish = false

[dependencies]
dioxus = { version = "0.6", default-features = false, features = ["html", "document", "hooks", "signals", "macro"] }
serde = { version = "1", features = ["derive"] }
