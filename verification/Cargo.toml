[package]
name = "mousefood"
version = "0.1.0"
edition = "2021"
publish = false

[dependencies]
embedded-graphics = "*"
embedded-graphics-simulator = { version = "*", default-features = false }
ratatui = "*"
ratatui-core = "*"
thiserror = "*"
