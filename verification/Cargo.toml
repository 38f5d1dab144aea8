[package]
name = "ratatui-themes"
version = "0.1.1"
edition = "2021"
publish = false

[dependencies]
ratatui = "*"
serde = { version = "1", features = ["derive"] }
