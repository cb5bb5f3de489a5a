[package]
name = "statement_layout"
version = "0.1.0"
edition = "2021"
publish = false

[dependencies]
chrono = { version = "0.4", features = ["serde"] }
image = "0.24"
numfmt = "1"
printpdf = { version = "0.6", features = ["embedded_images"] }
serde = { version = "1", features = ["derive"] }
serde_json = "1"
textwrap = "0.16"
