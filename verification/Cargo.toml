[package]
name = "tux_pdf"
version = "0.1.0"
edition = "2021"
publish = false

[dependencies]
ttf-parser = "=0.25.1"
lopdf = { version = "=0.46.0", default-features = false }
time = "=0.3.55"
taffy = "=0.15.1"
thiserror = "2"
