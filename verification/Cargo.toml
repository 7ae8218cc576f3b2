[package]
name = "partial_file"
version = "0.1.0"
edition = "2021"
publish = false

[dependencies]
hyper = "0.10"
rocket = "0.5"
diesel = { version = "1.4", features = ["sqlite", "chrono"] }
chrono = "0.4"
