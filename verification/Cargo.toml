[package]
name = "gir_to_stub"
version = "0.1.0"
edition = "2021"
publish = false

[dependencies]
xmltree = { version = "0.10", features = ["attribute-order"] }
chrono = { version = "0.4", default-features = false, features = ["clock"] }
clap = { version = "3", features = ["derive"] }
