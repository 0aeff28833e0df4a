[package]
name = "statistics_importer"
version = "0.1.0"
edition = "2021"
publish = false

[dependencies]
log = "*"
text-colorizer = "*"
