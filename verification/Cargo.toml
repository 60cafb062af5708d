[package]
name = "icy_browser"
version = "0.1.0"
edition = "2021"
publish = false

[dependencies]
url = "2"
rand = "0.8"
iced = { version = "0.13", default-features = false }
strum_macros = "0.26"
smol_str = "0.2"
clipboard-rs = "0.2"
