[package]
name = "mathimg"
version = "0.1.0"
edition = "2021"
publish = false

[dependencies]
clap = { version = "4", features = ["derive"] }
clap_complete = "4"
mathjax_svg = "*"
resvg = "0.36"
rustyline = "*"
tiny-skia = "0.11"
usvg = "0.36"
