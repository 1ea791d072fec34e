[package]
name = "simon_game"
version = "0.1.0"
edition = "2021"
publish = false

[dependencies]
ratatui = "0.30"
rand = "0.9"
serde = { version = "1", features = ["derive"] }
serde_json = "1"
directories = "6"
tui-big-text = "*"
