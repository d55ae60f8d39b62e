[package]
name = "open_docs"
version = "0.1.0"
edition = "2021"
publish = false

[dependencies]
anyhow = "1"
clap = { version = "4", features = ["derive"] }
is-terminal = "0.4"
open = "5"
tokio = { version = "1", features = ["rt"] }
