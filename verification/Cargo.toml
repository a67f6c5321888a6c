[package]
name = "dioxus-tabular"
version = "0.1.0"
edition = "2021"
publish = false

[dependencies]
dioxus = { version = "0.7", default-features = false, features = ["macro", "html", "signals", "hooks"] }
serde = "1"

[dev-dependencies]
serde_json = "1"
