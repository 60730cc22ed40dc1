[package]
name = "tui_pwsafe"
version = "0.1.0"
edition = "2021"
publish = false

[dependencies]
arboard = "*"
crossterm = "0.25"
rs-pwsafe = "*"
tui = "0.19"
unicode-width = "0.1"
