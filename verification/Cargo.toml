[package]
name = "discogs_parquet"
version = "0.1.0"
edition = "2021"
publish = false

[dependencies]
arrow = { version = "*", default-features = false }
flate2 = "1"
parquet = { version = "*", default-features = false, features = ["arrow", "snap"] }
quick-xml = "0.37"
