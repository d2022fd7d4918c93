[package]
name = "gd_save_explorer"
version = "0.1.0"
edition = "2021"
publish = false

[dependencies]
base64 = "0.21"
flate2 = "1"
xml-rs = "0.8"
iced = { version = "0.10", default-features = false }
rfd = { version = "0.12", default-features = false, features = ["xdg-portal"] }
