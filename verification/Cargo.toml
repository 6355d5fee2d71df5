[package]
name = "dz6"
version = "0.1.0"
edition = "2021"
publish = false

[dependencies]
ratatui = "*"
tui-input = "*"
directories-next = "*"
