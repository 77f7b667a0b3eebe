[package]
name = "wagyan"
version = "0.1.0"
edition = "2021"
publish = false

[dependencies]
anyhow = "1"
clap = { version = "4", features = ["derive"] }
lyon_path = "1"
lyon_tessellation = "1"
stl_io = "*"
ttf-parser = "*"
