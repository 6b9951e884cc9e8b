[package]
name = "jiq"
version = "0.1.0"
edition = "2021"
publish = false

[dependencies]
clap = { version = "4", features = ["derive"] }
color-eyre = "0.6"
ratatui = "0.29"
serde_json = "1"
tui-textarea = "0.7"
which = "*"
