[package]
name = "runex"
version = "0.1.0"
edition = "2021"
publish = false

[dependencies]
anyhow = "1"
clap = { version = "4", features = ["derive"] }
glib = "*"
gtk4 = "*"
gtk4-layer-shell = "*"
jsonc-parser = { version = "*", features = ["serde"] }
serde = { version = "1", features = ["derive"] }
serde_json = "1"
