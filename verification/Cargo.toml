[package]
name = "pdf_pipeline"
version = "0.1.0"
edition = "2021"
publish = false

[dependencies]
serde = { version = "*", features = ["derive"] }
serde_json = "*"
tera = "*"
pulldown-cmark = "*"
uuid = { version = "*", features = ["v4"] }
tempfile = "*"
