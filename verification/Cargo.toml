[package]
name = "csv_cat"
version = "0.1.0"
edition = "2021"
publish = false

[dependencies]
csv = "1"
comp-cat-rs = "*"
serde = { version = "1", features = ["derive"] }
