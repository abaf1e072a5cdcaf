[package]
name = "tg"
version = "0.1.0"
edition = "2021"
publish = false

[dependencies]
arboard = "3.4.1"
crossterm = "0.28.1"
ratatui = "0.29.0"
