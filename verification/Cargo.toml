[package]
name = "search_cli"
version = "0.1.0"
edition = "2021"
publish = false

[dependencies]
clap = "2"
indicatif = "*"
reqwest = { version = "*", default-features = false, features = ["json", "rustls-tls"] }
serde = { version = "*", features = ["derive"] }
tokio = { version = "*", features = ["macros", "rt-multi-thread"] }
