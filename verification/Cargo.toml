[package]
name = "zipper_edit"
version = "0.1.0"
edition = "2021"
publish = false

[dependencies]
anyhow = "1"
clap = { version = "4", features = ["derive"] }
crossterm = "0.27"
ratatui = { version = "0.26", features = ["unstable-widget-ref"] }
tokio = { version = "1", features = ["full"] }
