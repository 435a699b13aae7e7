[package]
name = "god_converter"
version = "0.1.0"
edition = "2021"
publish = false

[dependencies]
anyhow = "1"
rayon = "1"
rocket = { version = "0.5", features = ["json"] }
rocket_dyn_templates = { version = "0.2", features = ["tera"] }
sha1 = "0.10"
suppaftp = "6"
tempfile = "3"
tokio = { version = "1", features = ["rt"] }
walkdir = "2"
