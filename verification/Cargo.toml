[package]
name = "wp_epub_cli"
version = "0.1.0"
edition = "2021"
publish = false

[dependencies]
reqwest = { version = "=0.13.5", default-features = false, features = ["cookies"] }
tokio = { version = "*", features = ["rt-multi-thread", "macros"] }
wp-mini = "=0.2.0-alpha.3"
wp-mini-epub = "=0.9.0-alpha.2"
anyhow = "*"
tracing = "*"
tracing-subscriber = { version = "*", features = ["env-filter"] }
