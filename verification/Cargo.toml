[package]
name = "open_steam_controller"
version = "0.1.0"
edition = "2021"
publish = false

[dependencies]
anyhow = "=1.0.104"
clap = "=4.6.7"
ksni = "=0.2.2"
uinput = { version = "=0.1.3", default-features = false }
