[package]
name = "wei_tray"
version = "0.1.0"
edition = "2021"
publish = false

[dependencies]
systray = "*"
webbrowser = "*"
wei-env = "*"
wei-run = "*"
