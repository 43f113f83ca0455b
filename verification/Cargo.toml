[package]
name = "miuchiz_usb"
version = "0.1.0"
edition = "2021"
publish = false

[dependencies]
eframe = { version = "=0.23.0", default-features = false, features = ["glow", "default_fonts"] }
rfd = { version = "=0.12.1", default-features = false, features = ["xdg-portal"] }
