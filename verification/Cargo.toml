[package]
name = "gitbook_crawler"
version = "0.1.0"
edition = "2021"
publish = false

[dependencies]
clap = { version = "=4.6.7", features = ["derive"] }
eyre = "=0.6.14"
playwright = { version = "=0.0.20", features = ["only-for-docs-rs"] }
tokio = { version = "=1.53.2", features = ["macros", "rt-multi-thread", "fs"] }
