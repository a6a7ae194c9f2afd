[package]
name = "rpc_gui"
version = "0.1.0"
edition = "2021"
publish = false

[dependencies]
url = "=2.2.2"
discord-rich-presence = "=0.1.8"
notify-rust = "4"
iced = "=0.3.0"
