[package]
name = "nunny"
version = "0.1.0"
edition = "2021"
publish = false

[dependencies]
anyhow = "1"
clap = { version = "4", features = ["derive"] }
owo-colors = "4"
prettyplease = "0.2"
proc-macro2 = "1"
quote = "1"
scraper = "*"
syn = { version = "2", features = ["full", "visit-mut", "extra-traits"] }
syn-miette = "*"
ureq = "2"
